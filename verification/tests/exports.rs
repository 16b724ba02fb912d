use cardamom_loader::exports::{Dinput, Dsound, MissingProc, Shared, WinFuncPtr};

#[test]
fn new_and_stub() {
    assert_eq!(WinFuncPtr::new(0x1000), WinFuncPtr::Proc(0x1000));
    assert_eq!(WinFuncPtr::STUB, WinFuncPtr::Stub);
}

#[test]
fn from_farproc() {
    assert_eq!(WinFuncPtr::from_farproc(Some(7)), Ok(WinFuncPtr::Proc(7)));
    assert_eq!(WinFuncPtr::from_farproc(None), Err(MissingProc));
}

#[test]
fn proc_names_in_field_order() {
    assert_eq!(Shared::proc_names(), vec!["DllCanUnloadNow", "DllGetClassObject"]);
    assert_eq!(
        Dinput::proc_names(),
        vec!["DirectInput8Create", "DllRegisterServer", "DllUnregisterServer", "GetdfDIJoystick"]
    );
    assert_eq!(
        Dsound::proc_names(),
        vec![
            "DirectSoundCaptureCreate",
            "DirectSoundCaptureCreate8",
            "DirectSoundCaptureEnumerateA",
            "DirectSoundCaptureEnumerateW",
            "DirectSoundCreate",
            "DirectSoundCreate8",
            "DirectSoundEnumerateA",
            "DirectSoundEnumerateW",
            "DirectSoundFullDuplexCreate",
            "GetDeviceID",
        ]
    );
}

#[test]
fn stub_tables() {
    let s = Shared::stub();
    assert_eq!(s.DllCanUnloadNow, WinFuncPtr::STUB);
    assert_eq!(s.DllGetClassObject, WinFuncPtr::STUB);
    let d = Dinput::stub();
    for p in [d.DirectInput8Create, d.DllRegisterServer, d.DllUnregisterServer, d.GetdfDIJoystick] {
        assert_eq!(p, WinFuncPtr::STUB);
    }
    let d = Dsound::stub();
    for p in [
        d.DirectSoundCaptureCreate,
        d.DirectSoundCaptureCreate8,
        d.DirectSoundCaptureEnumerateA,
        d.DirectSoundCaptureEnumerateW,
        d.DirectSoundCreate,
        d.DirectSoundCreate8,
        d.DirectSoundEnumerateA,
        d.DirectSoundEnumerateW,
        d.DirectSoundFullDuplexCreate,
        d.GetDeviceID,
    ] {
        assert_eq!(p, WinFuncPtr::STUB);
    }
}

#[test]
fn shared_resolves_in_order() {
    let s = Shared::new(&[Some(1), Some(2)]).unwrap();
    assert_eq!(s.DllCanUnloadNow, WinFuncPtr::Proc(1));
    assert_eq!(s.DllGetClassObject, WinFuncPtr::Proc(2));
    assert_eq!(Shared::new(&[None, Some(2)]), Err(MissingProc));
    assert_eq!(Shared::new(&[Some(1), None]), Err(MissingProc));
}

#[test]
fn lookups_must_match_the_names() {
    assert_eq!(Shared::new(&[Some(1)]), Err(MissingProc));
    assert_eq!(Shared::new(&[Some(1), Some(2), Some(3)]), Err(MissingProc));
    assert_eq!(Dinput::new(&[]), Err(MissingProc));
}

#[test]
fn dinput_resolves_all_or_nothing() {
    let d = Dinput::new(&[Some(10), Some(20), Some(30), Some(40)]).unwrap();
    assert_eq!(d.DirectInput8Create, WinFuncPtr::Proc(10));
    assert_eq!(d.DllRegisterServer, WinFuncPtr::Proc(20));
    assert_eq!(d.DllUnregisterServer, WinFuncPtr::Proc(30));
    assert_eq!(d.GetdfDIJoystick, WinFuncPtr::Proc(40));
    assert_eq!(Dinput::new(&[Some(10), Some(20), Some(30), None]), Err(MissingProc));
    assert_eq!(Dinput::new(&[None, None, None, None]), Err(MissingProc));
}

#[test]
fn dsound_resolves_all_or_nothing() {
    let all: Vec<Option<usize>> = (1..=10).map(Some).collect();
    let d = Dsound::new(&all).unwrap();
    assert_eq!(d.DirectSoundCaptureCreate, WinFuncPtr::Proc(1));
    assert_eq!(d.DirectSoundEnumerateA, WinFuncPtr::Proc(7));
    assert_eq!(d.DirectSoundEnumerateW, WinFuncPtr::Proc(8));
    assert_eq!(d.DirectSoundFullDuplexCreate, WinFuncPtr::Proc(9));
    assert_eq!(d.GetDeviceID, WinFuncPtr::Proc(10));
    let mut procs = all.clone();
    procs[9] = None;
    assert_eq!(Dsound::new(&procs), Err(MissingProc));
    let mut procs = all.clone();
    procs[5] = None;
    assert_eq!(Dsound::new(&procs), Err(MissingProc));
}
