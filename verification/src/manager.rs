//! A manager for the memory of one process, found by the name of its
//! executable.

use vstd::prelude::*;
use crate::access::{bytes_view, copied, copy_address, put, put_address, CopyAddress, PutAddress};
use crate::architecture::Address;
use crate::error::{MemResult, MemoryError};
use crate::process::{
    find_module, find_process, is_absent, is_first, lemma_some_first, lowercase, module_names,
    process_names, ModuleEntry, ProcessEntry, ProcessHandle, TryIntoProcessHandle,
};

verus! {

/// The memory of one process.
pub struct MemoryManager<S> {
    pub raw: S,
}

/// What the making of a manager comes to, once the process was found and the
/// attempt to open it ended in `outcome`: a manager over the memory that
/// `connect` makes for the handle, or `AccessDenied` whatever the reason of
/// the failure.
pub open spec fn managed<S, F: FnOnce(ProcessHandle) -> S>(
    connect: F,
    outcome: Result<ProcessHandle, MemoryError>,
    r: MemResult<MemoryManager<S>>,
) -> bool {
    match outcome {
        Ok(handle) => r is Ok && connect.ensures((handle,), r->Ok_0.raw),
        Err(_) => r is Err && r->Err_0 == MemoryError::AccessDenied,
    }
}

impl<S: CopyAddress + PutAddress> MemoryManager<S> {
    /// A manager for the first of `processes` whose executable is called
    /// `name`, whatever the case of the letters. The process is opened, and
    /// `connect` makes the memory of the process from its handle. Later
    /// processes of the same name are not tried.
    pub fn new<K: TryIntoProcessHandle, F: FnOnce(ProcessHandle) -> S>(
        name: &str,
        processes: &Vec<ProcessEntry<K>>,
        connect: F,
    ) -> (r: MemResult<Self>)
        requires
            forall|handle: ProcessHandle| connect.requires((handle,)),
        ensures
            is_absent(process_names(processes@), lowercase(name@)) ==> r is Err && r->Err_0
                == MemoryError::ProcessNotFound,
            forall|i: int|
                is_first(process_names(processes@), lowercase(name@), i) ==> exists|
                    outcome: Result<ProcessHandle, MemoryError>,
                |
                    #[trigger] processes@[i].id.may_open(outcome) && managed(connect, outcome, r),
    {
        let ghost names = process_names(processes@);
        let ghost wanted = lowercase(name@);
        let found = find_process(processes, name);
        proof {
            if !is_absent(names, wanted) {
                lemma_some_first(names, wanted);
            }
        }
        match found {
            Ok(handle) => {
                let r = Ok(MemoryManager { raw: connect(handle) });
                assert forall|i: int| is_first(names, wanted, i) implies exists|
                    outcome: Result<ProcessHandle, MemoryError>,
                |
                    #[trigger] processes@[i].id.may_open(outcome) && managed(connect, outcome, r) by {
                    let outcome = choose|outcome: Result<ProcessHandle, MemoryError>|
                        #[trigger] processes@[i].id.may_open(outcome) && found == crate::process::spec_opened(
                            outcome,
                        );
                    assert(outcome == Ok::<ProcessHandle, MemoryError>(handle));
                    assert(managed(connect, outcome, r));
                }
                r
            },
            Err(e) => {
                let r = Err(e);
                assert forall|i: int| is_first(names, wanted, i) implies exists|
                    outcome: Result<ProcessHandle, MemoryError>,
                |
                    #[trigger] processes@[i].id.may_open(outcome) && managed(connect, outcome, r) by {
                    let outcome = choose|outcome: Result<ProcessHandle, MemoryError>|
                        #[trigger] processes@[i].id.may_open(outcome) && found == crate::process::spec_opened(
                            outcome,
                        );
                    assert(outcome is Err);
                    assert(managed(connect, outcome, r));
                }
                r
            },
        }
    }

    /// Writes `value` at `address` in the process.
    pub fn write(&mut self, address: Address, value: &[u8]) -> (r: MemResult<()>)
        ensures
            put(&old(self).raw, &final(self).raw, address, value@, r),
            value@.len() == 0 ==> r == Ok::<(), MemoryError>(()) && final(self).raw == old(self).raw,
    {
        put_address(address, value, &mut self.raw)
    }

    /// Reads `length` bytes at `address` in the process.
    pub fn read(&self, address: Address, length: usize) -> (r: MemResult<Vec<u8>>)
        ensures
            copied(&self.raw, address, length as nat, bytes_view(r)),
            length == 0 ==> r is Ok,
            r is Ok ==> r->Ok_0@.len() == length,
    {
        copy_address(address, length, &self.raw)
    }

    /// The load address of the first of `modules` that is called `name`,
    /// whatever the case of the letters; `ModuleNotFound` where none is.
    /// `modules` are the loaded modules of the process, as the caller has
    /// enumerated them.
    pub fn get_module_address(&self, name: &str, modules: &Vec<ModuleEntry>) -> (r: MemResult<Address>)
        ensures
            is_absent(module_names(modules@), lowercase(name@)) <==> r is Err,
            r is Err ==> r->Err_0 == MemoryError::ModuleNotFound,
            forall|i: int|
                is_first(module_names(modules@), lowercase(name@), i) ==> r == Ok::<Address, MemoryError>(
                    modules@[i].base,
                ),
    {
        proof {
            if !is_absent(module_names(modules@), lowercase(name@)) {
                lemma_some_first(module_names(modules@), lowercase(name@));
            }
        }
        find_module(modules, name)
    }

    /// Reads `length` bytes at `address` in `local`, the address space of
    /// the running process itself.
    pub fn read_raw<L: CopyAddress>(local: &L, address: Address, length: usize) -> (r: MemResult<Vec<u8>>)
        ensures
            copied(local, address, length as nat, bytes_view(r)),
            length == 0 ==> r is Ok,
            r is Ok ==> r->Ok_0@.len() == length,
    {
        copy_address(address, length, local)
    }
}

} // verus!
