use havit_monitor::win::{lock_name, module_name_step, path_hash, ModuleNameStep, Wide};
use havit_monitor::{current_icon, init, set_icon, Error, Icon};

fn units(text: &str) -> Vec<u16> {
    text.encode_utf16().collect()
}

#[test]
fn path_hash_is_case_insensitive_fnv1a() {
    assert_eq!(path_hash(""), 0xcbf2_9ce4_8422_2325);
    assert_eq!(path_hash("a"), 0xaf63_dc4c_8601_ec8c);
    assert_eq!(path_hash("A"), 0xaf63_dc4c_8601_ec8c);
    assert_eq!(path_hash(r"c:\apps\app.exe"), 0x90fc_45e9_28d1_6aed);
    assert_eq!(path_hash(r"C:\Apps\App.EXE"), 0x90fc_45e9_28d1_6aed);
    assert_ne!(path_hash(r"C:\Other\App.EXE"), 0x90fc_45e9_28d1_6aed);
}

#[test]
fn path_hash_folds_non_ascii_letters_too() {
    assert_eq!(path_hash(r"C:\Éter\app.exe"), 0x899f_8e26_ad25_ff6f);
    assert_eq!(path_hash(r"c:\éter\app.exe"), 0x899f_8e26_ad25_ff6f);
    // A character outside the basic plane counts as its two UTF-16 units.
    assert_eq!(path_hash("a\u{1F600}"), 0x74ce_b516_f0f7_6d59);
}

#[test]
fn lock_name_carries_sixteen_hex_digits() {
    assert_eq!(lock_name(r"C:\Apps\App.EXE"), "Local\\alt-icons-90fc45e928d16aed");
    assert_eq!(lock_name(""), "Local\\alt-icons-cbf29ce484222325");
}

#[test]
fn wide_strings_end_in_nul() {
    let wide = Wide::new(units("ab"));
    assert_eq!(wide.as_units(), &[97, 98, 0]);
}

#[test]
fn module_name_buffer_grows_until_the_path_fits() {
    assert!(matches!(module_name_step(0, 260), ModuleNameStep::Failed));
    assert!(matches!(module_name_step(42, 260), ModuleNameStep::Done(42)));
    assert!(matches!(module_name_step(260, 260), ModuleNameStep::Grow(520)));
}

struct Dark;

impl Icon for Dark {
    fn name(&self) -> &'static str {
        "Dark"
    }

    fn bytes(&self) -> &'static [u8] {
        &[]
    }
}

#[test]
fn away_from_windows_nothing_is_swapped() {
    assert!(init().is_ok());
    assert!(matches!(set_icon(Dark), Err(Error::UnsupportedPlatform)));
    assert_eq!(current_icon().unwrap(), None);
    assert_eq!(Dark.name(), "Dark");
}

#[test]
fn error_messages() {
    assert_eq!(
        Error::SwapInProgress.message(),
        "another process is already changing this executable's icon"
    );
    assert_eq!(Error::MalformedIcon("contains no images").message(), "malformed icon: contains no images");
    assert_eq!(Error::Windows("MoveFileExW", 32).message(), "MoveFileExW failed with error 32");
    assert_eq!(Error::UnsupportedPlatform.message(), "alt-icons only works on Windows");
    let dir = std::path::PathBuf::from("some/dir");
    assert_eq!(Error::PathNotWritable(dir).message(), "cannot write to some/dir");
    let io = std::io::Error::new(std::io::ErrorKind::Other, "disk full");
    assert_eq!(Error::Io(io).message(), "disk full");
}

use havit_monitor::win::launch_path;

#[test]
fn launch_path_is_asked_once() {
    let mut cache: Option<Vec<u16>> = None;
    let first = launch_path(&mut cache, || Ok(units(r"C:\Apps\app.exe"))).unwrap();
    assert_eq!(first, units(r"C:\Apps\app.exe"));
    let again = launch_path(&mut cache, || panic!("must not ask again")).unwrap();
    assert_eq!(again, units(r"C:\Apps\app.exe"));
}

#[test]
fn a_failed_query_caches_nothing() {
    let mut cache: Option<Vec<u16>> = None;
    let failed = launch_path(&mut cache, || Err(Error::Windows("GetModuleFileNameW", 5)));
    assert!(matches!(failed, Err(Error::Windows("GetModuleFileNameW", 5))));
    assert!(cache.is_none());
}
