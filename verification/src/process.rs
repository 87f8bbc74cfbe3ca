//! Finding a process, and a module of a process, by name among the entries
//! that an enumeration of the platform produced.

use vstd::prelude::*;
use crate::architecture::{Address, Architecture};
use crate::error::MemoryError;

verus! {

/// A process identifier.
pub type Pid = u32;

/// An open process: the token that the platform gave for it, and the
/// pointer layout of the process.
#[derive(Debug, PartialEq, Eq, Structural)]
pub struct ProcessHandle {
    pub raw: u64,
    pub arch: Architecture,
}

impl ProcessHandle {
    /// A second handle for the same open process.
    pub fn duplicate(&self) -> (r: ProcessHandle)
        ensures
            r == *self,
    {
        ProcessHandle { raw: self.raw, arch: self.arch }
    }
}

/// Additional functions on process handles.
pub trait ProcessHandleExt {
    /// Whether the handle is not null.
    fn check_handle(&self) -> bool;

    /// The null handle, with pointers as wide as the running process has them.
    fn null_type() -> ProcessHandle;

    /// The same handle for a process of the architecture `arch`.
    fn set_arch(self, arch: Architecture) -> Self;
}

impl ProcessHandleExt for ProcessHandle {
    fn check_handle(&self) -> (r: bool)
        ensures
            r == (self.raw != 0),
    {
        self.raw != 0
    }

    fn null_type() -> (r: ProcessHandle)
        ensures
            r.raw == 0,
            r.arch.spec_byte_width() * 8 == usize::BITS,
    {
        ProcessHandle { raw: 0, arch: Architecture::from_native() }
    }

    fn set_arch(self, arch: Architecture) -> (r: Self)
        ensures
            r.raw == self.raw,
            r.arch == arch,
    {
        ProcessHandle { raw: self.raw, arch }
    }
}

/// Something that may be turned into a handle of an open process.
pub trait TryIntoProcessHandle {
    /// Whether the attempt may end in `outcome`. Where an implementation
    /// does not say, every outcome is possible.
    open spec fn may_open(&self, outcome: Result<ProcessHandle, MemoryError>) -> bool {
        true
    }

    /// Tries to open the process with the rights that reading and writing
    /// its memory need.
    fn try_into_process_handle(&self) -> (r: Result<ProcessHandle, MemoryError>)
        ensures
            self.may_open(r),
    ;
}

impl TryIntoProcessHandle for ProcessHandle {
    /// A handle is open already: the attempt gives a duplicate of it.
    open spec fn may_open(&self, outcome: Result<ProcessHandle, MemoryError>) -> bool {
        outcome == Ok::<ProcessHandle, MemoryError>(*self)
    }

    fn try_into_process_handle(&self) -> (r: Result<ProcessHandle, MemoryError>) {
        Ok(self.duplicate())
    }
}

/// One running process, as an enumeration reports it: what can be opened, and
/// the file name of its executable.
pub struct ProcessEntry<K> {
    pub id: K,
    pub name: String,
}

/// One loaded module of a process: its name and where it is loaded.
pub struct ModuleEntry {
    pub name: String,
    pub base: Address,
}

/// The lower-case form of a string, as `str::to_lowercase` gives it.
pub uninterp spec fn lowercase(s: Seq<char>) -> Seq<char>;

/// `str::to_lowercase`: the lower-case form of `s`, which depends on the
/// characters of `s` alone.
#[verifier::external_body]
fn to_lowercase(s: &str) -> (r: String)
    ensures
        r@ == lowercase(s@),
{
    s.to_lowercase()
}

/// Whether `items[i]` is the first item equal to `wanted`.
pub open spec fn is_first(items: Seq<Seq<char>>, wanted: Seq<char>, i: int) -> bool {
    &&& 0 <= i < items.len()
    &&& items[i] == wanted
    &&& forall|j: int| 0 <= j < i ==> items[j] != wanted
}

/// Whether no item is equal to `wanted`.
pub open spec fn is_absent(items: Seq<Seq<char>>, wanted: Seq<char>) -> bool {
    forall|j: int| 0 <= j < items.len() ==> items[j] != wanted
}

/// The characters of each string.
pub open spec fn texts(items: Seq<String>) -> Seq<Seq<char>> {
    Seq::new(items.len(), |i: int| items[i]@)
}

/// Where some item is equal to `wanted`, one of them is the first.
pub proof fn lemma_some_first(items: Seq<Seq<char>>, wanted: Seq<char>)
    requires
        !is_absent(items, wanted),
    ensures
        exists|i: int| is_first(items, wanted, i),
    decreases items.len(),
{
    let j = choose|j: int| 0 <= j < items.len() && items[j] == wanted;
    let front = items.take(j);
    if is_absent(front, wanted) {
        assert forall|k: int| 0 <= k < j implies items[k] != wanted by {
            assert(front[k] == items[k]);
        }
        assert(is_first(items, wanted, j));
    } else {
        lemma_some_first(front, wanted);
        let i = choose|i: int| is_first(front, wanted, i);
        assert forall|k: int| 0 <= k < i implies items[k] != wanted by {
            assert(front[k] == items[k]);
        }
        assert(front[i] == items[i]);
        assert(is_first(items, wanted, i));
    }
}

/// The index of the first of `items` that is equal to `wanted`.
pub fn position_of(items: &Vec<String>, wanted: &String) -> (r: Option<usize>)
    ensures
        match r {
            Some(i) => is_first(texts(items@), wanted@, i as int),
            None => is_absent(texts(items@), wanted@),
        },
{
    let n: usize = items.len();
    let mut i: usize = 0;
    while i < n
        invariant
            i <= n == items@.len(),
            forall|j: int| 0 <= j < i ==> texts(items@)[j] != wanted@,
        decreases n - i,
    {
        if items[i] == *wanted {
            return Some(i);
        }
        i = i + 1;
    }
    None
}

/// The lower-case forms of the names of the processes.
pub open spec fn process_names<K>(processes: Seq<ProcessEntry<K>>) -> Seq<Seq<char>> {
    Seq::new(processes.len(), |i: int| lowercase(processes[i].name@))
}

/// The lower-case forms of the names of the modules.
pub open spec fn module_names(modules: Seq<ModuleEntry>) -> Seq<Seq<char>> {
    Seq::new(modules.len(), |i: int| lowercase(modules[i].name@))
}

/// The index of the first process whose executable is called `name`,
/// whatever the case of the letters.
pub fn select_process<K>(processes: &Vec<ProcessEntry<K>>, name: &str) -> (r: Option<usize>)
    ensures
        match r {
            Some(i) => is_first(process_names(processes@), lowercase(name@), i as int),
            None => is_absent(process_names(processes@), lowercase(name@)),
        },
{
    let wanted = to_lowercase(name);
    let n: usize = processes.len();
    let mut lowered: Vec<String> = Vec::new();
    let mut i: usize = 0;
    while i < n
        invariant
            i <= n == processes@.len(),
            lowered@.len() == i,
            forall|j: int| 0 <= j < i ==> lowered@[j]@ == lowercase(processes@[j].name@),
        decreases n - i,
    {
        lowered.push(to_lowercase(processes[i].name.as_str()));
        i = i + 1;
    }
    assert(texts(lowered@) =~= process_names(processes@));
    position_of(&lowered, &wanted)
}

/// What an attempt to open the process that was found comes to: the handle,
/// or `AccessDenied` whatever the reason of the failure.
pub open spec fn spec_opened(outcome: Result<ProcessHandle, MemoryError>) -> Result<ProcessHandle, MemoryError> {
    match outcome {
        Ok(handle) => Ok(handle),
        Err(_) => Err(MemoryError::AccessDenied),
    }
}

/// Computes [`spec_opened`].
#[verifier::when_used_as_spec(spec_opened)]
pub fn opened(outcome: Result<ProcessHandle, MemoryError>) -> (r: Result<ProcessHandle, MemoryError>)
    ensures
        r == spec_opened(outcome),
{
    match outcome {
        Ok(handle) => Ok(handle),
        Err(_) => Err(MemoryError::AccessDenied),
    }
}

/// Opens the first of `processes` whose executable is called `name`,
/// whatever the case of the letters. Later processes of the same name are
/// not tried, even where the first cannot be opened.
pub fn find_process<K: TryIntoProcessHandle>(processes: &Vec<ProcessEntry<K>>, name: &str) -> (r: Result<
    ProcessHandle,
    MemoryError,
>)
    ensures
        is_absent(process_names(processes@), lowercase(name@)) ==> r == Err::<ProcessHandle, MemoryError>(
            MemoryError::ProcessNotFound,
        ),
        forall|i: int|
            is_first(process_names(processes@), lowercase(name@), i) ==> exists|
                outcome: Result<ProcessHandle, MemoryError>,
            |
                #[trigger] processes@[i].id.may_open(outcome) && r == spec_opened(outcome),
{
    match select_process(processes, name) {
        None => Err(MemoryError::ProcessNotFound),
        Some(found) => {
            let outcome = processes[found].id.try_into_process_handle();
            let r = opened(outcome);
            assert forall|i: int| is_first(process_names(processes@), lowercase(name@), i) implies exists|
                o: Result<ProcessHandle, MemoryError>,
            |
                #[trigger] processes@[i].id.may_open(o) && r == spec_opened(o) by {
                assert(i == found);
                assert(processes@[i].id.may_open(outcome));
            }
            r
        },
    }
}

/// The load address of the first of `modules` that is called `module_name`,
/// whatever the case of the letters.
pub fn find_module(modules: &Vec<ModuleEntry>, module_name: &str) -> (r: Result<Address, MemoryError>)
    ensures
        is_absent(module_names(modules@), lowercase(module_name@)) <==> r is Err,
        r is Err ==> r->Err_0 == MemoryError::ModuleNotFound,
        forall|i: int|
            is_first(module_names(modules@), lowercase(module_name@), i) ==> r == Ok::<Address, MemoryError>(
                modules@[i].base,
            ),
{
    let wanted = to_lowercase(module_name);
    let n: usize = modules.len();
    let mut lowered: Vec<String> = Vec::new();
    let mut i: usize = 0;
    while i < n
        invariant
            i <= n == modules@.len(),
            lowered@.len() == i,
            forall|j: int| 0 <= j < i ==> lowered@[j]@ == lowercase(modules@[j].name@),
        decreases n - i,
    {
        lowered.push(to_lowercase(modules[i].name.as_str()));
        i = i + 1;
    }
    assert(texts(lowered@) =~= module_names(modules@));
    match position_of(&lowered, &wanted) {
        None => Err(MemoryError::ModuleNotFound),
        Some(found) => {
            assert forall|i: int| is_first(module_names(modules@), lowercase(module_name@), i) implies i
                == found by {}
            Ok(modules[found].base)
        },
    }
}

} // verus!
