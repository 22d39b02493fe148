//! The build-time side of the icon set: checking the declared names, and writing the
//! Rust source of the `AppIcon` enum that the running program switches icons with.
//!
//! The build script is the single declaration site on purpose. It runs before macro
//! expansion, so it could never read an icon list declared by a macro — which means
//! a macro-based API would force the same list to be written twice, in two places
//! that can silently drift apart.

use vstd::prelude::*;

verus! {

// ---------------------------------------------------------------------------
// Names
// ---------------------------------------------------------------------------
pub open spec fn is_ident_start(c: char) -> bool {
    ('a' <= c && c <= 'z') || ('A' <= c && c <= 'Z') || c == '_'
}

pub open spec fn is_ident_continue(c: char) -> bool {
    is_ident_start(c) || ('0' <= c && c <= '9')
}

/// The keywords of Rust, strict and reserved, that cannot name an enum variant,
/// except `extern` (see [`is_keyword`]).
pub open spec fn keyword_list() -> Seq<Seq<char>> {
    seq!["as"@, "async"@, "await"@, "break"@, "const"@, "continue"@, "crate"@, "dyn"@, "else"@, "enum"@, "false"@, "fn"@, "for"@, "if"@, "impl"@, "in"@, "let"@, "loop"@, "match"@, "mod"@, "move"@, "mut"@, "pub"@, "ref"@, "return"@, "self"@, "Self"@, "static"@, "struct"@, "super"@, "trait"@, "true"@, "type"@, "unsafe"@, "use"@, "where"@, "while"@, "abstract"@, "become"@, "box"@, "do"@, "final"@, "macro"@, "override"@, "priv"@, "try"@, "typeof"@, "unsized"@, "virtual"@, "yield"@, "gen"@]
}

/// The keyword that [`keyword_list`] leaves out, spelled letter by letter.
pub open spec fn extern_keyword() -> Seq<char> {
    seq!['e', 'x', 't', 'e', 'r', 'n']
}

/// `s` is a Rust keyword (strict or reserved).
pub open spec fn is_keyword(s: Seq<char>) -> bool {
    keyword_list().contains(s) || s == extern_keyword()
}

/// `s` has the shape of an ASCII Rust identifier: a letter or `_`, then letters,
/// digits or `_`.
pub open spec fn has_ident_shape(s: Seq<char>) -> bool {
    &&& s.len() > 0
    &&& is_ident_start(s[0])
    &&& forall|i: int| 1 <= i < s.len() ==> is_ident_continue(#[trigger] s[i])
}

/// `s` is an ASCII Rust identifier that can name an enum variant: the shape of an
/// identifier, but neither `_` alone nor a keyword.
pub open spec fn is_identifier(s: Seq<char>) -> bool {
    has_ident_shape(s) && s != seq!['_'] && !is_keyword(s)
}

fn ident_start(c: char) -> (r: bool)
    ensures
        r == is_ident_start(c),
{
    ('a' <= c && c <= 'z') || ('A' <= c && c <= 'Z') || c == '_'
}

fn ident_continue(c: char) -> (r: bool)
    ensures
        r == is_ident_continue(c),
{
    ident_start(c) || ('0' <= c && c <= '9')
}

fn has_shape(name: &str) -> (r: bool)
    ensures
        r == has_ident_shape(name@),
{
    let n = name.unicode_len();
    if n == 0 || !ident_start(name.get_char(0)) {
        return false;
    }
    let mut i: usize = 1;
    while i < n
        invariant
            n == name@.len(),
            1 <= i <= n,
            forall|j: int| 1 <= j < i ==> is_ident_continue(#[trigger] name@[j]),
        decreases n - i,
    {
        if !ident_continue(name.get_char(i)) {
            return false;
        }
        i = i + 1;
    }
    true
}

/// Whether `name` is the one-character text `c`.
fn is_single(name: &str, c: char) -> (r: bool)
    ensures
        r == (name@ == seq![c]),
{
    if name.unicode_len() == 1 && name.get_char(0) == c {
        assert(name@ =~= seq![c]);
        true
    } else {
        false
    }
}

fn is_extern_keyword(name: &str) -> (r: bool)
    ensures
        r == (name@ == extern_keyword()),
{
    if name.unicode_len() == 6 && name.get_char(0) == 'e' && name.get_char(1) == 'x'
        && name.get_char(2) == 't' && name.get_char(3) == 'e' && name.get_char(4) == 'r'
        && name.get_char(5) == 'n' {
        assert(name@ =~= extern_keyword());
        true
    } else {
        proof {
            if name@ == extern_keyword() {
                assert(name@[0] == 'e' && name@[1] == 'x' && name@[2] == 't');
                assert(name@[3] == 'e' && name@[4] == 'r' && name@[5] == 'n');
            }
        }
        false
    }
}

/// Whether `name` is a Rust keyword.
pub fn is_keyword_text(name: &str) -> (r: bool)
    ensures
        r == is_keyword(name@),
{
    let keywords: [&str; 51] = ["as", "async", "await", "break", "const", "continue", "crate", "dyn", "else", "enum", "false", "fn", "for", "if", "impl", "in", "let", "loop", "match", "mod", "move", "mut", "pub", "ref", "return", "self", "Self", "static", "struct", "super", "trait", "true", "type", "unsafe", "use", "where", "while", "abstract", "become", "box", "do", "final", "macro", "override", "priv", "try", "typeof", "unsized", "virtual", "yield", "gen"];
    assert(keywords@.map_values(|w: &str| w@) =~= keyword_list());
    let mut i: usize = 0;
    while i < 51
        invariant
            i <= 51,
            keywords@.map_values(|w: &str| w@) == keyword_list(),
            forall|j: int| 0 <= j < i ==> keyword_list()[j] != name@,
        decreases 51 - i,
    {
        if same_text(keywords[i], name) {
            assert(keyword_list()[i as int] == name@);
            return true;
        }
        i = i + 1;
    }
    assert(!keyword_list().contains(name@));
    is_extern_keyword(name)
}

/// Whether `name` can be an `AppIcon` variant.
pub fn is_ident(name: &str) -> (r: bool)
    ensures
        r == is_identifier(name@),
{
    has_shape(name) && !is_single(name, '_') && !is_keyword_text(name)
}

/// Whether `a` and `b` are the same text.
pub fn same_text(a: &str, b: &str) -> (r: bool)
    ensures
        r == (a@ == b@),
{
    let n = a.unicode_len();
    if n != b.unicode_len() {
        return false;
    }
    let mut i: usize = 0;
    while i < n
        invariant
            n == a@.len(),
            n == b@.len(),
            i <= n,
            forall|j: int| 0 <= j < i ==> a@[j] == b@[j],
        decreases n - i,
    {
        if a.get_char(i) != b.get_char(i) {
            return false;
        }
        i = i + 1;
    }
    assert(a@ =~= b@);
    true
}

/// What is wrong with the name of an entry of the icon set.
#[derive(Debug, PartialEq, Eq, Structural)]
pub enum NameProblem {
    /// It cannot be an enum variant.
    NotIdentifier,
    /// An earlier entry has it already.
    Duplicate,
}

/// What is wrong with the name of the next entry, `name`, when the entries before it
/// are named `declared`.
pub open spec fn name_problem(declared: Seq<Seq<char>>, name: Seq<char>) -> Option<NameProblem> {
    if !is_identifier(name) {
        Some(NameProblem::NotIdentifier)
    } else if declared.contains(name) {
        Some(NameProblem::Duplicate)
    } else {
        None
    }
}

pub open spec fn names_view(names: Seq<String>) -> Seq<Seq<char>> {
    names.map_values(|s: String| s@)
}

/// Checks the name of the next entry of the icon set against the names already
/// declared.
pub fn check_icon_name(declared: &[String], name: &str) -> (r: Result<(), NameProblem>)
    ensures
        match r {
            Ok(()) => name_problem(names_view(declared@), name@) is None,
            Err(p) => name_problem(names_view(declared@), name@) == Some(p),
        },
{
    if !is_ident(name) {
        return Err(NameProblem::NotIdentifier);
    }
    let mut i: usize = 0;
    while i < declared.len()
        invariant
            i <= declared@.len(),
            is_identifier(name@),
            forall|j: int| 0 <= j < i ==> declared@[j]@ != name@,
        decreases declared@.len() - i,
    {
        if same_text(declared[i].as_str(), name) {
            assert(names_view(declared@)[i as int] == name@);
            assert(names_view(declared@).contains(name@));
            return Err(NameProblem::Duplicate);
        }
        i = i + 1;
    }
    assert(!names_view(declared@).contains(name@)) by {
        if names_view(declared@).contains(name@) {
            let k = choose|k: int| 0 <= k < names_view(declared@).len() && names_view(declared@)[k] == name@;
            assert(declared@[k]@ == name@);
        }
    }
    Ok(())
}

/// The message a build fails with for `problem` with `name`.
pub open spec fn name_problem_message(problem: NameProblem, name: Seq<char>) -> Seq<char> {
    match problem {
        NameProblem::NotIdentifier => "`"@ + name
            + "` is not a valid Rust identifier, so it cannot be an AppIcon variant"@,
        NameProblem::Duplicate => "duplicate icon name `"@ + name + "`"@,
    }
}

impl NameProblem {
    pub fn message(&self, name: &str) -> (m: String)
        ensures
            m@ == name_problem_message(*self, name@),
    {
        match self {
            NameProblem::NotIdentifier => {
                let mut m = String::from_str("`");
                m.append(name);
                m.append("` is not a valid Rust identifier, so it cannot be an AppIcon variant");
                m
            },
            NameProblem::Duplicate => {
                let mut m = String::from_str("duplicate icon name `");
                m.append(name);
                m.append("`");
                m
            },
        }
    }
}

/// What is wrong with the icon set as a whole.
#[derive(Debug, PartialEq, Eq, Structural)]
pub enum SetProblem {
    /// It has no entry at all.
    Empty,
    /// No entry is named `Default`, the icon baked into the binary.
    NoDefault,
}

impl SetProblem {
    /// The message a build fails with.
    pub fn message(&self) -> (m: String)
        ensures
            m@ == match *self {
                SetProblem::Empty => "the icon set must not be empty"@,
                SetProblem::NoDefault => "the icon set must contain an entry named `Default`"@,
            },
    {
        match self {
            SetProblem::Empty => String::from_str("the icon set must not be empty"),
            SetProblem::NoDefault => String::from_str(
                "the icon set must contain an entry named `Default`",
            ),
        }
    }
}

/// Checks that the icon set declares at least one entry (`count` of them).
pub fn check_not_empty(count: usize) -> (r: Result<(), SetProblem>)
    ensures
        count == 0 ==> r == Err::<(), SetProblem>(SetProblem::Empty),
        count > 0 ==> r is Ok,
{
    if count == 0 {
        Err(SetProblem::Empty)
    } else {
        Ok(())
    }
}

/// The position of the first entry named `Default` among `names`, the icon baked
/// into the binary; `NoDefault` when there is none.
pub fn default_entry(names: &[String]) -> (r: Result<usize, SetProblem>)
    ensures
        match r {
            Ok(i) => i < names@.len() && names@[i as int]@ == "Default"@ && forall|j: int|
                0 <= j < i ==> names@[j]@ != "Default"@,
            Err(p) => p == SetProblem::NoDefault && !names_view(names@).contains("Default"@),
        },
{
    let mut i: usize = 0;
    while i < names.len()
        invariant
            i <= names@.len(),
            forall|j: int| 0 <= j < i ==> names@[j]@ != "Default"@,
        decreases names@.len() - i,
    {
        if same_text(names[i].as_str(), "Default") {
            return Ok(i);
        }
        i = i + 1;
    }
    assert(!names_view(names@).contains("Default"@)) by {
        if names_view(names@).contains("Default"@) {
            let k = choose|k: int| 0 <= k < names_view(names@).len() && names_view(names@)[k] == "Default"@;
            assert(names@[k]@ == "Default"@);
        }
    }
    Err(SetProblem::NoDefault)
}

// ---------------------------------------------------------------------------
// Paths
// ---------------------------------------------------------------------------
/// The `\\?\` prefix that `canonicalize` puts in front of a path on Windows.
pub open spec fn unc_prefix() -> Seq<char> {
    seq!['\\', '\\', '?', '\\']
}

/// `path` without a leading `\\?\`.
pub open spec fn without_unc(path: Seq<char>) -> Seq<char> {
    if path.len() >= 4 && path.subrange(0, 4) == unc_prefix() {
        path.subrange(4, path.len() as int)
    } else {
        path
    }
}

/// `canonicalize` hands back `\\?\C:\...` on Windows. The resource compiler and
/// `include_bytes!` both cope better with a plain path.
pub fn strip_unc(path: &str) -> (plain: String)
    ensures
        plain@ == without_unc(path@),
{
    let n = path.unicode_len();
    if n >= 4 && path.get_char(0) == '\\' && path.get_char(1) == '\\' && path.get_char(2) == '?'
        && path.get_char(3) == '\\' {
        assert(path@.subrange(0, 4) =~= unc_prefix());
        String::from_str(path.substring_char(4, n))
    } else {
        proof {
            if n >= 4 && path@.subrange(0, 4) == unc_prefix() {
                assert(path@.subrange(0, 4)[0] == path@[0]);
                assert(path@.subrange(0, 4)[1] == path@[1]);
                assert(path@.subrange(0, 4)[2] == path@[2]);
                assert(path@.subrange(0, 4)[3] == path@[3]);
            }
        }
        String::from_str(path)
    }
}

// ---------------------------------------------------------------------------
// The resource script that bakes the default icon
// ---------------------------------------------------------------------------
/// `s` with every backslash doubled, as a string literal of a `.rc` file needs it.
pub open spec fn rc_escaped(s: Seq<char>) -> Seq<char>
    decreases s.len(),
{
    if s.len() == 0 {
        seq![]
    } else if s.last() == '\\' {
        rc_escaped(s.drop_last()) + seq!['\\', '\\']
    } else {
        rc_escaped(s.drop_last()).push(s.last())
    }
}

/// The resource script that stores the icon at `icon_path` as `RT_GROUP_ICON` id 1
/// in the neutral language — the same id and language a swap rewrites later, so an
/// update replaces the baked icon instead of sitting beside it as a second
/// translation.
pub open spec fn resource_script_text(icon_path: Seq<char>) -> Seq<char> {
    "LANGUAGE 0, 0\n1 ICON \""@ + rc_escaped(icon_path) + "\"\n"@
}

pub fn resource_script(icon_path: &str) -> (script: String)
    ensures
        script@ == resource_script_text(icon_path@),
{
    let mut script = String::from_str("LANGUAGE 0, 0\n1 ICON \"");
    let ghost start = script@;
    let n = icon_path.unicode_len();
    let mut i: usize = 0;
    while i < n
        invariant
            n == icon_path@.len(),
            i <= n,
            script@ == start + rc_escaped(icon_path@.take(i as int)),
        decreases n - i,
    {
        assert(icon_path@.take(i + 1).drop_last() =~= icon_path@.take(i as int));
        let one = icon_path.substring_char(i, i + 1);
        assert(one@ =~= seq![icon_path@[i as int]]);
        let ghost before = script@;
        if icon_path.get_char(i) == '\\' {
            let backslash = "\\";
            proof {
                reveal_strlit("\\");
            }
            assert(backslash@ =~= seq!['\\']);
            script.append(backslash);
            script.append(backslash);
            assert(script@ =~= before + seq!['\\', '\\']);
        } else {
            script.append(one);
        }
        assert(icon_path@.take(i + 1).last() == icon_path@[i as int]);
        i = i + 1;
    }
    assert(icon_path@.take(n as int) =~= icon_path@);
    script.append("\"\n");
    script
}

// ---------------------------------------------------------------------------
// The generated source
// ---------------------------------------------------------------------------
/// One icon of the set: the variant name, and the path of its `.ico` as it is to be
/// written into the generated source.
pub struct Entry {
    pub name: String,
    pub path: String,
}

pub open spec fn entries_view(entries: Seq<Entry>) -> Seq<(Seq<char>, Seq<char>)> {
    entries.map_values(|e: Entry| (e.name@, e.path@))
}

pub const HEADER: &'static str = "// Generated by alt-icons-build. Do not edit.\n\n";

/// The four lists the generated source repeats once per entry.
#[derive(Clone, Copy, PartialEq, Eq, Structural)]
pub enum LineKind {
    /// A variant of the enum.
    Variant,
    /// An element of `AppIcon::ALL`.
    All,
    /// An arm of `Icon::name`.
    Name,
    /// An arm of `Icon::bytes`.
    Bytes,
}

/// The line of kind `kind` for the entry named `name` whose icon is at `path`.
pub open spec fn line(kind: LineKind, name: Seq<char>, path: Seq<char>) -> Seq<char> {
    match kind {
        LineKind::Variant => "    "@ + name + ",\n"@,
        LineKind::All => "        AppIcon::"@ + name + ",\n"@,
        LineKind::Name => "            AppIcon::"@ + name + " => \""@ + name + "\",\n"@,
        LineKind::Bytes => "            AppIcon::"@ + name + " => include_bytes!(r\""@ + path
            + "\"),\n"@,
    }
}

/// The lines of kind `kind` for every entry, in order.
pub open spec fn lines(kind: LineKind, entries: Seq<(Seq<char>, Seq<char>)>) -> Seq<char>
    decreases entries.len(),
{
    if entries.len() == 0 {
        seq![]
    } else {
        lines(kind, entries.drop_last()) + line(kind, entries.last().0, entries.last().1)
    }
}

/// The generated source for the icon set `entries`.
pub open spec fn generated(entries: Seq<(Seq<char>, Seq<char>)>) -> Seq<char> {
    HEADER@ + "#[derive(Debug, Clone, Copy, PartialEq, Eq, Hash)]\npub enum AppIcon {\n"@
        + lines(LineKind::Variant, entries)
        + "}\n\nimpl AppIcon {\n    /// Every icon in the set, in declaration order.\n"@
        + "    pub const ALL: &'static [AppIcon] = &[\n"@ + lines(LineKind::All, entries)
        + "    ];\n}\n\nimpl alt_icons::Icon for AppIcon {\n"@
        + "    fn name(&self) -> &'static str {\n        match self {\n"@ + lines(
        LineKind::Name,
        entries,
    ) + "        }\n    }\n\n"@ + "    fn bytes(&self) -> &'static [u8] {\n        match self {\n"@
        + lines(LineKind::Bytes, entries) + "        }\n    }\n}\n"@
}

/// The generated source when there is no icon set (away from Windows): an empty enum.
pub open spec fn generated_stub() -> Seq<char> {
    HEADER@ + "#[derive(Debug, Clone, Copy, PartialEq, Eq, Hash)]\npub enum AppIcon {}\n\n"@
        + "impl AppIcon {\n    pub const ALL: &'static [AppIcon] = &[];\n}\n\n"@
        + "impl alt_icons::Icon for AppIcon {\n"@
        + "    fn name(&self) -> &'static str {\n        match *self {}\n    }\n\n"@
        + "    fn bytes(&self) -> &'static [u8] {\n        match *self {}\n    }\n}\n"@
}

fn push_line(out: &mut String, kind: LineKind, entry: &Entry)
    ensures
        final(out)@ == old(out)@ + line(kind, entry.name@, entry.path@),
{
    let name = entry.name.as_str();
    match kind {
        LineKind::Variant => {
            out.append("    ");
            out.append(name);
            out.append(",\n");
        },
        LineKind::All => {
            out.append("        AppIcon::");
            out.append(name);
            out.append(",\n");
        },
        LineKind::Name => {
            out.append("            AppIcon::");
            out.append(name);
            out.append(" => \"");
            out.append(name);
            out.append("\",\n");
        },
        LineKind::Bytes => {
            out.append("            AppIcon::");
            out.append(name);
            out.append(" => include_bytes!(r\"");
            out.append(entry.path.as_str());
            out.append("\"),\n");
        },
    }
}

fn push_lines(out: &mut String, kind: LineKind, entries: &[Entry])
    ensures
        final(out)@ == old(out)@ + lines(kind, entries_view(entries@)),
{
    let ghost start = out@;
    let mut i: usize = 0;
    while i < entries.len()
        invariant
            i <= entries@.len(),
            out@ == start + lines(kind, entries_view(entries@.take(i as int))),
        decreases entries@.len() - i,
    {
        push_line(out, kind, &entries[i]);
        assert(entries_view(entries@.take(i + 1)).drop_last() =~= entries_view(
            entries@.take(i as int),
        ));
        i = i + 1;
    }
    assert(entries@.take(entries@.len() as int) =~= entries@);
}

/// The Rust source of the `AppIcon` enum for the icon set `entries`, with its `ALL`
/// list and its `alt_icons::Icon` impl.
pub fn generate(entries: &[Entry]) -> (out: String)
    ensures
        out@ == generated(entries_view(entries@)),
{
    let mut out = String::new();
    out.append(HEADER);
    out.append("#[derive(Debug, Clone, Copy, PartialEq, Eq, Hash)]\npub enum AppIcon {\n");
    push_lines(&mut out, LineKind::Variant, entries);
    out.append("}\n\nimpl AppIcon {\n    /// Every icon in the set, in declaration order.\n");
    out.append("    pub const ALL: &'static [AppIcon] = &[\n");
    push_lines(&mut out, LineKind::All, entries);
    out.append("    ];\n}\n\nimpl alt_icons::Icon for AppIcon {\n");
    out.append("    fn name(&self) -> &'static str {\n        match self {\n");
    push_lines(&mut out, LineKind::Name, entries);
    out.append("        }\n    }\n\n");
    out.append("    fn bytes(&self) -> &'static [u8] {\n        match self {\n");
    push_lines(&mut out, LineKind::Bytes, entries);
    out.append("        }\n    }\n}\n");
    assert(out@ =~= generated(entries_view(entries@)));
    out
}

/// The source generated when there is no icon set to bake.
pub fn generate_stub() -> (out: String)
    ensures
        out@ == generated_stub(),
{
    let mut out = String::from_str(HEADER);
    out.append("#[derive(Debug, Clone, Copy, PartialEq, Eq, Hash)]\npub enum AppIcon {}\n\n");
    out.append("impl AppIcon {\n    pub const ALL: &'static [AppIcon] = &[];\n}\n\n");
    out.append("impl alt_icons::Icon for AppIcon {\n");
    out.append("    fn name(&self) -> &'static str {\n        match *self {}\n    }\n\n");
    out.append("    fn bytes(&self) -> &'static [u8] {\n        match *self {}\n    }\n}\n");
    assert(out@ =~= generated_stub());
    out
}

} // verus!
