use vstd::prelude::*;

verus! {

/// One forwarded export: either the stub, which answers `0` until the real
/// library is loaded, or the address of the real library's procedure.
#[derive(PartialEq, Eq, Structural, Debug, Clone, Copy)]
pub enum WinFuncPtr {
    Stub,
    Proc(usize),
}

/// A procedure that the real library does not export.
#[derive(PartialEq, Eq, Structural, Debug, Clone, Copy)]
pub struct MissingProc;

/// The export that a procedure lookup yields: the procedure's address when the
/// lookup found one, no export otherwise.
pub open spec fn spec_resolved(farproc: Option<usize>) -> Result<WinFuncPtr, MissingProc> {
    match farproc {
        Some(addr) => Ok(WinFuncPtr::Proc(addr)),
        None => Err(MissingProc),
    }
}

/// The lookup `farproc` found a procedure and `p` forwards to it.
pub open spec fn resolves_to(farproc: Option<usize>, p: WinFuncPtr) -> bool {
    farproc matches Some(addr) && p == WinFuncPtr::Proc(addr)
}

impl WinFuncPtr {
    /// The stub, which answers `0`.
    pub const STUB: WinFuncPtr = WinFuncPtr::Stub;

    /// The export that forwards to the procedure at `func`.
    pub fn new(func: usize) -> (p: Self)
        ensures
            p == WinFuncPtr::Proc(func),
    {
        WinFuncPtr::Proc(func)
    }

    /// Turns the result of a procedure lookup into an export; a lookup that
    /// found nothing is an error.
    pub fn from_farproc(farproc: Option<usize>) -> (r: Result<Self, MissingProc>)
        ensures
            r == spec_resolved(farproc),
    {
        match farproc {
            Some(func) => Ok(Self::new(func)),
            None => Err(MissingProc),
        }
    }
}

/// The names of a list of exports.
pub open spec fn str_views(names: Seq<&str>) -> Seq<Seq<char>> {
    names.map_values(|s: &str| s@)
}

/// Every lookup found its procedure.
pub open spec fn all_found(procs: Seq<Option<usize>>) -> bool {
    forall|i: int| 0 <= i < procs.len() ==> #[trigger] procs[i] is Some
}

/// Exports that both `dinput8` and `dsound` have.
#[allow(non_snake_case)]
#[derive(PartialEq, Eq, Structural, Debug, Clone, Copy)]
pub struct Shared {
    pub DllCanUnloadNow: WinFuncPtr,
    pub DllGetClassObject: WinFuncPtr,
}

impl Shared {
    /// Names of the table's procedures, in field order.
    pub open spec fn spec_proc_names() -> Seq<Seq<char>> {
        seq!["DllCanUnloadNow"@, "DllGetClassObject"@]
    }

    /// Names of the procedures to look up for the table, in field order.
    pub fn proc_names() -> (names: Vec<&'static str>)
        ensures
            str_views(names@) == Self::spec_proc_names(),
    {
        let names = vec!["DllCanUnloadNow", "DllGetClassObject"];
        assert(str_views(names@) =~= Self::spec_proc_names());
        names
    }

    /// The table before the real library is loaded: every export is the stub.
    pub fn stub() -> (t: Self)
        ensures
            t.DllCanUnloadNow == WinFuncPtr::STUB,
            t.DllGetClassObject == WinFuncPtr::STUB,
    {
        Shared { DllCanUnloadNow: WinFuncPtr::STUB, DllGetClassObject: WinFuncPtr::STUB }
    }

    /// Builds the table from the lookups of `proc_names()` in the real library,
    /// one per name and in the same order; it fails when a procedure is
    /// missing or the lookups do not match the names one for one.
    pub fn new(procs: &[Option<usize>]) -> (r: Result<Self, MissingProc>)
        ensures
            r is Ok <==> procs@.len() == Self::spec_proc_names().len() && all_found(procs@),
            r matches Ok(t) ==> {
                &&& resolves_to(procs@[0], t.DllCanUnloadNow)
                &&& resolves_to(procs@[1], t.DllGetClassObject)
            },
    {
        if procs.len() != 2 {
            return Err(MissingProc);
        }
        let r = Ok(
            Shared {
                DllCanUnloadNow: WinFuncPtr::from_farproc(procs[0])?,
                DllGetClassObject: WinFuncPtr::from_farproc(procs[1])?,
            },
        );
        assert(all_found(procs@));
        r
    }
}

/// Exports of `dinput8`.
#[allow(non_snake_case)]
#[derive(PartialEq, Eq, Structural, Debug, Clone, Copy)]
pub struct Dinput {
    pub DirectInput8Create: WinFuncPtr,
    pub DllRegisterServer: WinFuncPtr,
    pub DllUnregisterServer: WinFuncPtr,
    pub GetdfDIJoystick: WinFuncPtr,
}

impl Dinput {
    /// Names of the table's procedures, in field order.
    pub open spec fn spec_proc_names() -> Seq<Seq<char>> {
        seq!["DirectInput8Create"@, "DllRegisterServer"@, "DllUnregisterServer"@, "GetdfDIJoystick"@]
    }

    /// Names of the procedures to look up for the table, in field order.
    pub fn proc_names() -> (names: Vec<&'static str>)
        ensures
            str_views(names@) == Self::spec_proc_names(),
    {
        let names = vec!["DirectInput8Create", "DllRegisterServer", "DllUnregisterServer", "GetdfDIJoystick"];
        assert(str_views(names@) =~= Self::spec_proc_names());
        names
    }

    /// The table before the real library is loaded: every export is the stub.
    pub fn stub() -> (t: Self)
        ensures
            t.DirectInput8Create == WinFuncPtr::STUB,
            t.DllRegisterServer == WinFuncPtr::STUB,
            t.DllUnregisterServer == WinFuncPtr::STUB,
            t.GetdfDIJoystick == WinFuncPtr::STUB,
    {
        Dinput {
            DirectInput8Create: WinFuncPtr::STUB,
            DllRegisterServer: WinFuncPtr::STUB,
            DllUnregisterServer: WinFuncPtr::STUB,
            GetdfDIJoystick: WinFuncPtr::STUB,
        }
    }

    /// Builds the table from the lookups of `proc_names()` in the real library,
    /// one per name and in the same order; it fails when a procedure is
    /// missing or the lookups do not match the names one for one.
    pub fn new(procs: &[Option<usize>]) -> (r: Result<Self, MissingProc>)
        ensures
            r is Ok <==> procs@.len() == Self::spec_proc_names().len() && all_found(procs@),
            r matches Ok(t) ==> {
                &&& resolves_to(procs@[0], t.DirectInput8Create)
                &&& resolves_to(procs@[1], t.DllRegisterServer)
                &&& resolves_to(procs@[2], t.DllUnregisterServer)
                &&& resolves_to(procs@[3], t.GetdfDIJoystick)
            },
    {
        if procs.len() != 4 {
            return Err(MissingProc);
        }
        let r = Ok(
            Dinput {
                DirectInput8Create: WinFuncPtr::from_farproc(procs[0])?,
                DllRegisterServer: WinFuncPtr::from_farproc(procs[1])?,
                DllUnregisterServer: WinFuncPtr::from_farproc(procs[2])?,
                GetdfDIJoystick: WinFuncPtr::from_farproc(procs[3])?,
            },
        );
        assert(all_found(procs@));
        r
    }
}

/// Exports of `dsound`.
#[allow(non_snake_case)]
#[derive(PartialEq, Eq, Structural, Debug, Clone, Copy)]
pub struct Dsound {
    pub DirectSoundCaptureCreate: WinFuncPtr,
    pub DirectSoundCaptureCreate8: WinFuncPtr,
    pub DirectSoundCaptureEnumerateA: WinFuncPtr,
    pub DirectSoundCaptureEnumerateW: WinFuncPtr,
    pub DirectSoundCreate: WinFuncPtr,
    pub DirectSoundCreate8: WinFuncPtr,
    pub DirectSoundEnumerateA: WinFuncPtr,
    pub DirectSoundEnumerateW: WinFuncPtr,
    pub DirectSoundFullDuplexCreate: WinFuncPtr,
    pub GetDeviceID: WinFuncPtr,
}

impl Dsound {
    /// Names of the table's procedures, in field order.
    pub open spec fn spec_proc_names() -> Seq<Seq<char>> {
        seq!["DirectSoundCaptureCreate"@, "DirectSoundCaptureCreate8"@, "DirectSoundCaptureEnumerateA"@, "DirectSoundCaptureEnumerateW"@, "DirectSoundCreate"@, "DirectSoundCreate8"@, "DirectSoundEnumerateA"@, "DirectSoundEnumerateW"@, "DirectSoundFullDuplexCreate"@, "GetDeviceID"@]
    }

    /// Names of the procedures to look up for the table, in field order.
    pub fn proc_names() -> (names: Vec<&'static str>)
        ensures
            str_views(names@) == Self::spec_proc_names(),
    {
        let names = vec!["DirectSoundCaptureCreate", "DirectSoundCaptureCreate8", "DirectSoundCaptureEnumerateA", "DirectSoundCaptureEnumerateW", "DirectSoundCreate", "DirectSoundCreate8", "DirectSoundEnumerateA", "DirectSoundEnumerateW", "DirectSoundFullDuplexCreate", "GetDeviceID"];
        assert(str_views(names@) =~= Self::spec_proc_names());
        names
    }

    /// The table before the real library is loaded: every export is the stub.
    pub fn stub() -> (t: Self)
        ensures
            t.DirectSoundCaptureCreate == WinFuncPtr::STUB,
            t.DirectSoundCaptureCreate8 == WinFuncPtr::STUB,
            t.DirectSoundCaptureEnumerateA == WinFuncPtr::STUB,
            t.DirectSoundCaptureEnumerateW == WinFuncPtr::STUB,
            t.DirectSoundCreate == WinFuncPtr::STUB,
            t.DirectSoundCreate8 == WinFuncPtr::STUB,
            t.DirectSoundEnumerateA == WinFuncPtr::STUB,
            t.DirectSoundEnumerateW == WinFuncPtr::STUB,
            t.DirectSoundFullDuplexCreate == WinFuncPtr::STUB,
            t.GetDeviceID == WinFuncPtr::STUB,
    {
        Dsound {
            DirectSoundCaptureCreate: WinFuncPtr::STUB,
            DirectSoundCaptureCreate8: WinFuncPtr::STUB,
            DirectSoundCaptureEnumerateA: WinFuncPtr::STUB,
            DirectSoundCaptureEnumerateW: WinFuncPtr::STUB,
            DirectSoundCreate: WinFuncPtr::STUB,
            DirectSoundCreate8: WinFuncPtr::STUB,
            DirectSoundEnumerateA: WinFuncPtr::STUB,
            DirectSoundEnumerateW: WinFuncPtr::STUB,
            DirectSoundFullDuplexCreate: WinFuncPtr::STUB,
            GetDeviceID: WinFuncPtr::STUB,
        }
    }

    /// Builds the table from the lookups of `proc_names()` in the real library,
    /// one per name and in the same order; it fails when a procedure is
    /// missing or the lookups do not match the names one for one.
    pub fn new(procs: &[Option<usize>]) -> (r: Result<Self, MissingProc>)
        ensures
            r is Ok <==> procs@.len() == Self::spec_proc_names().len() && all_found(procs@),
            r matches Ok(t) ==> {
                &&& resolves_to(procs@[0], t.DirectSoundCaptureCreate)
                &&& resolves_to(procs@[1], t.DirectSoundCaptureCreate8)
                &&& resolves_to(procs@[2], t.DirectSoundCaptureEnumerateA)
                &&& resolves_to(procs@[3], t.DirectSoundCaptureEnumerateW)
                &&& resolves_to(procs@[4], t.DirectSoundCreate)
                &&& resolves_to(procs@[5], t.DirectSoundCreate8)
                &&& resolves_to(procs@[6], t.DirectSoundEnumerateA)
                &&& resolves_to(procs@[7], t.DirectSoundEnumerateW)
                &&& resolves_to(procs@[8], t.DirectSoundFullDuplexCreate)
                &&& resolves_to(procs@[9], t.GetDeviceID)
            },
    {
        if procs.len() != 10 {
            return Err(MissingProc);
        }
        let r = Ok(
            Dsound {
                DirectSoundCaptureCreate: WinFuncPtr::from_farproc(procs[0])?,
                DirectSoundCaptureCreate8: WinFuncPtr::from_farproc(procs[1])?,
                DirectSoundCaptureEnumerateA: WinFuncPtr::from_farproc(procs[2])?,
                DirectSoundCaptureEnumerateW: WinFuncPtr::from_farproc(procs[3])?,
                DirectSoundCreate: WinFuncPtr::from_farproc(procs[4])?,
                DirectSoundCreate8: WinFuncPtr::from_farproc(procs[5])?,
                DirectSoundEnumerateA: WinFuncPtr::from_farproc(procs[6])?,
                DirectSoundEnumerateW: WinFuncPtr::from_farproc(procs[7])?,
                DirectSoundFullDuplexCreate: WinFuncPtr::from_farproc(procs[8])?,
                GetDeviceID: WinFuncPtr::from_farproc(procs[9])?,
            },
        );
        assert(all_found(procs@));
        r
    }
}

} // verus!
