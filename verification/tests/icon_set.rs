use havit_monitor::icon_set::{
    check_icon_name, check_not_empty, default_entry, generate, generate_stub, is_ident,
    resource_script, same_text, strip_unc, Entry, NameProblem, SetProblem,
};

#[test]
fn identifiers() {
    assert!(is_ident("Default"));
    assert!(is_ident("_dark2"));
    assert!(!is_ident(""));
    assert!(!is_ident("2dark"));
    assert!(!is_ident("dark-mode"));
    assert!(!is_ident("Ícone"));
}

#[test]
fn names_are_checked_in_order() {
    let declared = vec![String::from("Default"), String::from("Dark")];
    assert_eq!(check_icon_name(&declared, "Light"), Ok(()));
    assert_eq!(check_icon_name(&declared, "Dark"), Err(NameProblem::Duplicate));
    assert_eq!(check_icon_name(&declared, "dark mode"), Err(NameProblem::NotIdentifier));
    assert_eq!(
        NameProblem::NotIdentifier.message("a b"),
        "`a b` is not a valid Rust identifier, so it cannot be an AppIcon variant"
    );
    assert_eq!(NameProblem::Duplicate.message("Dark"), "duplicate icon name `Dark`");
    assert!(same_text("abc", "abc"));
    assert!(!same_text("abc", "abd"));
}

#[test]
fn strips_only_a_leading_unc_prefix() {
    assert_eq!(strip_unc(r"\\?\C:\icons\dark.ico"), r"C:\icons\dark.ico");
    assert_eq!(strip_unc(r"C:\icons\dark.ico"), r"C:\icons\dark.ico");
    assert_eq!(strip_unc(r"\\?"), r"\\?");
}

#[test]
fn resource_script_escapes_backslashes() {
    assert_eq!(
        resource_script(r"C:\icons\default.ico"),
        "LANGUAGE 0, 0\n1 ICON \"C:\\\\icons\\\\default.ico\"\n"
    );
}

#[test]
fn generates_the_app_icon_enum() {
    let entries = vec![
        Entry { name: String::from("Default"), path: String::from(r"C:\i\d.ico") },
        Entry { name: String::from("Dark"), path: String::from(r"C:\i\k.ico") },
    ];
    let expected = "// Generated by alt-icons-build. Do not edit.\n\n\
#[derive(Debug, Clone, Copy, PartialEq, Eq, Hash)]\npub enum AppIcon {\n    Default,\n    Dark,\n}\n\n\
impl AppIcon {\n    /// Every icon in the set, in declaration order.\n    pub const ALL: &'static [AppIcon] = &[\n        AppIcon::Default,\n        AppIcon::Dark,\n    ];\n}\n\n\
impl alt_icons::Icon for AppIcon {\n    fn name(&self) -> &'static str {\n        match self {\n            AppIcon::Default => \"Default\",\n            AppIcon::Dark => \"Dark\",\n        }\n    }\n\n    \
fn bytes(&self) -> &'static [u8] {\n        match self {\n            AppIcon::Default => include_bytes!(r\"C:\\i\\d.ico\"),\n            AppIcon::Dark => include_bytes!(r\"C:\\i\\k.ico\"),\n        }\n    }\n}\n";
    assert_eq!(generate(&entries), expected);
}

#[test]
fn stub_declares_an_empty_set() {
    let stub = generate_stub();
    assert!(stub.starts_with("// Generated by alt-icons-build. Do not edit.\n\n"));
    assert!(stub.contains("pub enum AppIcon {}\n"));
    assert!(stub.contains("pub const ALL: &'static [AppIcon] = &[];"));
    assert!(stub.ends_with("    fn bytes(&self) -> &'static [u8] {\n        match *self {}\n    }\n}\n"));
}

#[test]
fn underscore_and_keywords_are_not_identifiers() {
    assert!(!is_ident("_"));
    assert!(is_ident("__"));
    assert!(!is_ident("fn"));
    assert!(!is_ident("match"));
    assert!(!is_ident("Self"));
    assert!(!is_ident("async"));
    assert!(!is_ident("gen"));
    assert!(!is_ident(&format!("{}{}", "ext", "ern")));
    assert!(is_ident("union"));
    assert!(is_ident("Fn"));
    let declared: Vec<String> = Vec::new();
    assert_eq!(check_icon_name(&declared, "type"), Err(NameProblem::NotIdentifier));
}

#[test]
fn the_set_needs_entries_and_a_default() {
    assert_eq!(check_not_empty(0), Err(SetProblem::Empty));
    assert_eq!(check_not_empty(2), Ok(()));
    let names = vec![String::from("Dark"), String::from("Default"), String::from("Default2")];
    assert_eq!(default_entry(&names), Ok(1));
    let names = vec![String::from("Dark"), String::from("default")];
    assert_eq!(default_entry(&names), Err(SetProblem::NoDefault));
    assert_eq!(SetProblem::Empty.message(), "the icon set must not be empty");
    assert_eq!(
        SetProblem::NoDefault.message(),
        "the icon set must contain an entry named `Default`"
    );
}
