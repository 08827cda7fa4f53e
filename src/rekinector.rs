//! A running host found by the injector.
use vstd::prelude::*;

verus! {

/// A host process: its handle, its process id if the system gave one (never
/// zero), the install directory, and the path of the module to inject.
pub struct Gmod<P> {
    process: P,
    process_id: Option<u32>,
    gmod_dir: String,
    gmcl_rekinect: String,
}

impl<P> Gmod<P> {
    #[verifier::type_invariant]
    spec fn pid_nonzero(self) -> bool {
        self.process_id matches Some(p) ==> p != 0
    }

    /// The process id the system gave, if any.
    pub closed spec fn process_id(&self) -> Option<u32> {
        self.process_id
    }

    /// The install directory.
    pub closed spec fn gmod_dir_view(&self) -> Seq<char> {
        self.gmod_dir@
    }

    /// The path of the module to inject.
    pub closed spec fn gmcl_rekinect_view(&self) -> Seq<char> {
        self.gmcl_rekinect@
    }

    pub fn new(process: P, process_id: Option<u32>, gmod_dir: String, gmcl_rekinect: String) -> (r:
        Self)
        requires
            process_id matches Some(p) ==> p != 0,
        ensures
            r.process_id() == process_id,
            r.gmod_dir_view() == gmod_dir@,
            r.gmcl_rekinect_view() == gmcl_rekinect@,
    {
        Gmod { process, process_id, gmod_dir, gmcl_rekinect }
    }

    pub fn process(&self) -> &P {
        &self.process
    }

    pub fn gmod_dir(&self) -> (r: &String)
        ensures
            r@ == self.gmod_dir_view(),
    {
        &self.gmod_dir
    }

    pub fn gmcl_rekinect(&self) -> (r: &String)
        ensures
            r@ == self.gmcl_rekinect_view(),
    {
        &self.gmcl_rekinect
    }

    /// The process id, when the system could tell it; it is never zero.
    pub fn pid(&self) -> (r: Option<u32>)
        ensures
            r == self.process_id(),
            r matches Some(p) ==> p != 0,
    {
        proof {
            use_type_invariant(self);
        }
        self.process_id
    }
}

/// The file name of the module that matches the host's architecture.
pub fn module_file_name(is_x86: bool) -> (r: &'static str)
    ensures
        is_x86 ==> r@ == "gmcl_rekinect_win32.dll"@,
        !is_x86 ==> r@ == "gmcl_rekinect_win64.dll"@,
{
    if is_x86 {
        "gmcl_rekinect_win32.dll"
    } else {
        "gmcl_rekinect_win64.dll"
    }
}

} // verus!
