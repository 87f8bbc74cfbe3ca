//! Loading a module into another process: what to do after each step, and
//! with which failure to stop.

use vstd::prelude::*;

verus! {

/// Why the injection of a module into a process stopped.
#[derive(Debug, Clone, Copy, PartialEq, Eq, Structural)]
pub enum InjectDllIntoProcessError {
    /// The path of the module could not be made canonical. The code is that
    /// of the platform's error.
    DllPathCanonicalizationFailed { err_code: i32 },
    /// The path of the module cannot be handed to the loader as a string.
    DllPathToStrFailed,
    /// The process could not be opened.
    OpenProcessFailed,
    /// No memory could be allocated in the process for the path.
    DllPathBufferAllocationFailed,
    /// The path could not be written into the process.
    WritingProcessMemoryFailed { err_code: i32 },
    /// The library that holds the loader was not found.
    Kernel32NotFound,
    /// The entry point of the loader was not found.
    LoadLibraryANotFound,
    /// The thread that runs the loader could not be started.
    FailedToCreateRemoteThread,
}

/// The steps of an injection, in their order.
#[derive(Debug, Clone, Copy, PartialEq, Eq, Structural)]
pub enum InjectStep {
    /// Open the process with all access rights.
    OpenProcess,
    /// Allocate a page in the process that can be read, written and run,
    /// large enough for the path buffer.
    AllocatePathBuffer,
    /// Write the path buffer into that page.
    WritePath,
    /// Find the library that holds the loader.
    FindLoaderLibrary,
    /// Find the entry point of the loader in that library.
    FindLoader,
    /// Start a thread in the process that runs the loader on the path.
    StartThread,
    /// Nothing is left to do.
    Done,
}

/// The bytes that are written into the process for a path: the path, then
/// one zero byte.
pub open spec fn spec_path_buffer(path: Seq<u8>) -> Seq<u8> {
    path.push(0u8)
}

/// Whether a path can be handed to the loader: no byte of it is zero.
pub open spec fn loadable(path: Seq<u8>) -> bool {
    forall|i: int| 0 <= i < path.len() ==> path[i] != 0
}

/// The buffer to write into the process for `path`. A path with a zero byte
/// in it would end early for the loader and is refused.
pub fn path_buffer(path: &[u8]) -> (r: Result<Vec<u8>, InjectDllIntoProcessError>)
    ensures
        loadable(path@) ==> r is Ok && r->Ok_0@ == spec_path_buffer(path@),
        !loadable(path@) ==> r is Err && r->Err_0 == InjectDllIntoProcessError::DllPathToStrFailed,
{
    let n: usize = path.len();
    let mut out: Vec<u8> = Vec::new();
    let mut i: usize = 0;
    while i < n
        invariant
            i <= n == path@.len(),
            out@ == path@.take(i as int),
            loadable(path@.take(i as int)),
        decreases n - i,
    {
        if path[i] == 0 {
            return Err(InjectDllIntoProcessError::DllPathToStrFailed);
        }
        out.push(path[i]);
        assert(out@ =~= path@.take(i + 1));
        i = i + 1;
    }
    assert(path@.take(n as int) =~= path@);
    out.push(0u8);
    Ok(out)
}

/// The buffer to write into the process, from the outcome of making the path
/// of the module canonical: its bytes, or the code of the platform's error.
pub fn prepared_path(canonical: Result<Vec<u8>, i32>) -> (r: Result<Vec<u8>, InjectDllIntoProcessError>)
    ensures
        match canonical {
            Ok(path) => {
                &&& loadable(path@) ==> r is Ok && r->Ok_0@ == spec_path_buffer(path@)
                &&& !loadable(path@) ==> r is Err && r->Err_0 == InjectDllIntoProcessError::DllPathToStrFailed
            },
            Err(code) => r is Err && r->Err_0 == (InjectDllIntoProcessError::DllPathCanonicalizationFailed {
                err_code: code,
            }),
        },
{
    match canonical {
        Ok(path) => path_buffer(path.as_slice()),
        Err(code) => Err(InjectDllIntoProcessError::DllPathCanonicalizationFailed { err_code: code }),
    }
}

/// What follows a step whose call returned `result`, where zero stands for
/// the null handle, the null address or the failure value of the platform,
/// and `platform_code` is the error code that the platform reports for the
/// call: the next step, or the failure that belongs to the step. A failed
/// write carries the platform's code. Nothing that an earlier step did is
/// undone.
pub open spec fn spec_after(step: InjectStep, result: u64, platform_code: i32) -> Result<
    InjectStep,
    InjectDllIntoProcessError,
> {
    if result != 0 {
        Ok(
            match step {
                InjectStep::OpenProcess => InjectStep::AllocatePathBuffer,
                InjectStep::AllocatePathBuffer => InjectStep::WritePath,
                InjectStep::WritePath => InjectStep::FindLoaderLibrary,
                InjectStep::FindLoaderLibrary => InjectStep::FindLoader,
                InjectStep::FindLoader => InjectStep::StartThread,
                InjectStep::StartThread => InjectStep::Done,
                InjectStep::Done => InjectStep::Done,
            },
        )
    } else {
        match step {
            InjectStep::OpenProcess => Err(InjectDllIntoProcessError::OpenProcessFailed),
            InjectStep::AllocatePathBuffer => Err(InjectDllIntoProcessError::DllPathBufferAllocationFailed),
            InjectStep::WritePath => Err(
                InjectDllIntoProcessError::WritingProcessMemoryFailed { err_code: platform_code },
            ),
            InjectStep::FindLoaderLibrary => Err(InjectDllIntoProcessError::Kernel32NotFound),
            InjectStep::FindLoader => Err(InjectDllIntoProcessError::LoadLibraryANotFound),
            InjectStep::StartThread => Err(InjectDllIntoProcessError::FailedToCreateRemoteThread),
            InjectStep::Done => Ok(InjectStep::Done),
        }
    }
}

/// Computes [`spec_after`].
#[verifier::when_used_as_spec(spec_after)]
pub fn after(step: InjectStep, result: u64, platform_code: i32) -> (r: Result<
    InjectStep,
    InjectDllIntoProcessError,
>)
    ensures
        r == spec_after(step, result, platform_code),
{
    let failed: bool = result == 0;
    match step {
        InjectStep::OpenProcess => if failed {
            Err(InjectDllIntoProcessError::OpenProcessFailed)
        } else {
            Ok(InjectStep::AllocatePathBuffer)
        },
        InjectStep::AllocatePathBuffer => if failed {
            Err(InjectDllIntoProcessError::DllPathBufferAllocationFailed)
        } else {
            Ok(InjectStep::WritePath)
        },
        InjectStep::WritePath => if failed {
            Err(InjectDllIntoProcessError::WritingProcessMemoryFailed { err_code: platform_code })
        } else {
            Ok(InjectStep::FindLoaderLibrary)
        },
        InjectStep::FindLoaderLibrary => if failed {
            Err(InjectDllIntoProcessError::Kernel32NotFound)
        } else {
            Ok(InjectStep::FindLoader)
        },
        InjectStep::FindLoader => if failed {
            Err(InjectDllIntoProcessError::LoadLibraryANotFound)
        } else {
            Ok(InjectStep::StartThread)
        },
        InjectStep::StartThread => if failed {
            Err(InjectDllIntoProcessError::FailedToCreateRemoteThread)
        } else {
            Ok(InjectStep::Done)
        },
        InjectStep::Done => Ok(InjectStep::Done),
    }
}

} // verus!
