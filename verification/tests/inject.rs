use titanium::activity::titanium_activity;
use titanium::inject::{after, path_buffer, prepared_path, InjectDllIntoProcessError, InjectStep};

#[test]
fn path_buffer_ends_in_one_zero() {
    assert_eq!(path_buffer(b"C:\\a.dll"), Ok(b"C:\\a.dll\0".to_vec()));
    assert_eq!(path_buffer(b""), Ok(vec![0]));
    assert_eq!(path_buffer(b"/tmp/lib.so").unwrap().len(), 12);
}

#[test]
fn path_buffer_refuses_a_zero_inside() {
    assert_eq!(path_buffer(b"a\0b"), Err(InjectDllIntoProcessError::DllPathToStrFailed));
    assert_eq!(path_buffer(b"\0"), Err(InjectDllIntoProcessError::DllPathToStrFailed));
    assert_eq!(path_buffer(b"ab\0"), Err(InjectDllIntoProcessError::DllPathToStrFailed));
}

#[test]
fn prepared_path_reports_the_failure_of_the_platform() {
    assert_eq!(
        prepared_path(Err(2)),
        Err(InjectDllIntoProcessError::DllPathCanonicalizationFailed { err_code: 2 })
    );
    assert_eq!(prepared_path(Ok(b"C:\\m.dll".to_vec())), Ok(b"C:\\m.dll\0".to_vec()));
    assert_eq!(prepared_path(Ok(b"a\0".to_vec())), Err(InjectDllIntoProcessError::DllPathToStrFailed));
}

#[test]
fn steps_follow_each_other() {
    let order = [
        InjectStep::OpenProcess,
        InjectStep::AllocatePathBuffer,
        InjectStep::WritePath,
        InjectStep::FindLoaderLibrary,
        InjectStep::FindLoader,
        InjectStep::StartThread,
        InjectStep::Done,
    ];
    for pair in order.windows(2) {
        assert_eq!(after(pair[0], 1, 0), Ok(pair[1]));
        assert_eq!(after(pair[0], u64::MAX, 5), Ok(pair[1]));
    }
    assert_eq!(after(InjectStep::Done, 1, 0), Ok(InjectStep::Done));
    assert_eq!(after(InjectStep::Done, 0, 7), Ok(InjectStep::Done));
}

#[test]
fn each_step_fails_in_its_own_way() {
    assert_eq!(after(InjectStep::OpenProcess, 0, 5), Err(InjectDllIntoProcessError::OpenProcessFailed));
    assert_eq!(
        after(InjectStep::AllocatePathBuffer, 0, 8),
        Err(InjectDllIntoProcessError::DllPathBufferAllocationFailed)
    );
    assert_eq!(
        after(InjectStep::FindLoaderLibrary, 0, 126),
        Err(InjectDllIntoProcessError::Kernel32NotFound)
    );
    assert_eq!(after(InjectStep::FindLoader, 0, 127), Err(InjectDllIntoProcessError::LoadLibraryANotFound));
    assert_eq!(
        after(InjectStep::StartThread, 0, 5),
        Err(InjectDllIntoProcessError::FailedToCreateRemoteThread)
    );
}

#[test]
fn failed_write_carries_the_code_of_the_platform() {
    assert_eq!(
        after(InjectStep::WritePath, 0, 998),
        Err(InjectDllIntoProcessError::WritingProcessMemoryFailed { err_code: 998 })
    );
    assert_eq!(
        after(InjectStep::WritePath, 0, 5),
        Err(InjectDllIntoProcessError::WritingProcessMemoryFailed { err_code: 5 })
    );
    assert_eq!(
        after(InjectStep::WritePath, 0, 0),
        Err(InjectDllIntoProcessError::WritingProcessMemoryFailed { err_code: 0 })
    );
    assert_eq!(after(InjectStep::WritePath, 1, 998), Ok(InjectStep::FindLoaderLibrary));
}

#[test]
fn activity_of_the_library() {
    let activity = titanium_activity(1_700_000_000);
    assert_eq!(activity.state, Some("Universal Game Client"));
    let stamps = activity.timestamps.unwrap();
    assert_eq!(stamps.start, Some(1_700_000_000));
    assert_eq!(stamps.end, None);
    let assets = activity.assets.unwrap();
    assert_eq!(assets.large_image, Some("titanium"));
    assert_eq!(assets.large_text, Some("Titanium Client"));
    assert_eq!(assets.small_image, Some("dbug"));
    assert_eq!(assets.small_text, Some("Developing"));
    assert_eq!(activity.buttons.len(), 2);
    assert_eq!(activity.buttons[0].label, "GitHub");
    assert_eq!(activity.buttons[0].url, "https://github.com/TBBOFBD/Titanium");
    assert_eq!(activity.buttons[1].label, "Discord");
    assert_eq!(activity.buttons[1].url, "https://discord.gg/mh9VYsCrPT");
    assert_eq!(titanium_activity(-5).timestamps.unwrap().start, Some(-5));
}
