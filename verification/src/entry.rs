//! The validated launch-entry request and the formatter that renders it
//! into the exact text of the desktop-entry file.

use vstd::prelude::*;

verus! {

/// The closed set of entry types. Only `Application` sees regular use;
/// the other two are kept so the set can grow without touching call
/// sites.
#[derive(Clone, Copy, PartialEq, Eq, Structural, Debug)]
pub enum DesktopEntryType {
    Application,
    Link,
    Directory,
}

impl DesktopEntryType {
    /// The text this variant puts after `Type=`.
    pub open spec fn type_text(self) -> Seq<char> {
        match self {
            DesktopEntryType::Application => "Application"@,
            DesktopEntryType::Link => "Link"@,
            DesktopEntryType::Directory => "Directory"@,
        }
    }

    /// The display text of this entry type, exactly as written into the
    /// `Type=` line.
    pub fn as_str(&self) -> (r: &'static str)
        ensures
            r@ == self.type_text(),
    {
        match self {
            DesktopEntryType::Application => "Application",
            DesktopEntryType::Link => "Link",
            DesktopEntryType::Directory => "Directory",
        }
    }
}

/// The validated configuration for one run: everything the formatter and
/// the path resolver read. Built once from the command line and never
/// mutated afterwards.
pub struct LaunchEntryRequest {
    /// Display name; required, non-empty.
    pub name: String,
    /// One of the closed set of entry types.
    pub entry_type: DesktopEntryType,
    /// Command line executed when the entry is launched.
    pub exec_cmd: String,
    /// Optional icon file path, rendered verbatim when present.
    pub icon: Option<String>,
    /// Write to the system-wide directory instead of the per-user one.
    pub global: bool,
    /// Explicit output filename; when absent, derived from `name`.
    pub filename: Option<String>,
}

/// The unconditional part of the rendered entry: execution hint line,
/// section header, then the `Type=`, `Name=` and `Exec=` lines, each field
/// verbatim.
pub open spec fn required_block(t: DesktopEntryType, name: Seq<char>, exec_cmd: Seq<char>) -> Seq<
    char,
> {
    "#!/usr/bin/env xdg-open\n[Desktop Entry]\nType="@ + t.type_text() + "\nName="@ + name
        + "\nExec="@ + exec_cmd + "\n"@
}

/// The conditional tail of the rendered entry: one `Icon=` line when an
/// icon path was given, nothing otherwise.
pub open spec fn icon_block(icon: Option<Seq<char>>) -> Seq<char> {
    match icon {
        Some(p) => "Icon="@ + p + "\n"@,
        None => Seq::<char>::empty(),
    }
}

/// The full rendered entry text.
pub open spec fn entry_text(
    t: DesktopEntryType,
    name: Seq<char>,
    exec_cmd: Seq<char>,
    icon: Option<Seq<char>>,
) -> Seq<char> {
    required_block(t, name, exec_cmd) + icon_block(icon)
}

impl LaunchEntryRequest {
    /// The icon path as a sequence of chars, when one was given.
    pub open spec fn icon_view(&self) -> Option<Seq<char>> {
        match self.icon {
            Some(p) => Some(p@),
            None => None,
        }
    }

    /// The exact text of the file this request asks for.
    pub open spec fn contents(&self) -> Seq<char> {
        entry_text(self.entry_type, self.name@, self.exec_cmd@, self.icon_view())
    }
}

/// Everything of the rendered text that stands before the `Exec=` field:
/// the fixed template with the type and name fields filled in.
pub open spec fn before_exec_field(t: DesktopEntryType, name: Seq<char>) -> Seq<char> {
    "#!/usr/bin/env xdg-open\n[Desktop Entry]\nType="@ + t.type_text() + "\nName="@ + name
        + "\nExec="@
}

/// Everything of the rendered text that stands after the `Exec=` field:
/// its line end and the optional `Icon=` line.
pub open spec fn after_exec_field(icon: Option<Seq<char>>) -> Seq<char> {
    "\n"@ + icon_block(icon)
}

/// Formatting is deterministic in the fields, and the command line shows
/// up in exactly one place: the whole text is a prefix that depends only
/// on the type and the name, then the `Exec=` field verbatim, then a tail
/// that depends only on the icon. Two requests that differ only in the
/// command line therefore produce texts sharing everything around that
/// field.
pub proof fn lemma_exec_varies_only_exec_field(
    t: DesktopEntryType,
    name: Seq<char>,
    exec_cmd: Seq<char>,
    icon: Option<Seq<char>>,
)
    ensures
        entry_text(t, name, exec_cmd, icon) == before_exec_field(t, name) + exec_cmd
            + after_exec_field(icon),
{
    assert(entry_text(t, name, exec_cmd, icon) =~= before_exec_field(t, name) + exec_cmd
        + after_exec_field(icon));
}

/// Whether `s` holds no line break.
pub open spec fn newline_free(s: Seq<char>) -> bool {
    forall|k: int| 0 <= k < s.len() ==> (#[trigger] s[k]) != '\n'
}

proof fn lemma_cancel_common_prefix(a: Seq<char>, b: Seq<char>, c: Seq<char>)
    requires
        a + b == a + c,
    ensures
        b == c,
{
    assert((a + b).len() == a.len() + b.len());
    assert((a + c).len() == a.len() + c.len());
    assert(b.len() == c.len());
    assert forall|k: int| 0 <= k < b.len() implies b[k] == c[k] by {
        assert((a + b)[a.len() + k] == b[k]);
        assert((a + c)[a.len() + k] == c[k]);
    }
    assert(b =~= c);
}

proof fn lemma_split_at_newline(a1: Seq<char>, b1: Seq<char>, a2: Seq<char>, b2: Seq<char>)
    requires
        a1 + b1 == a2 + b2,
        newline_free(a1),
        newline_free(a2),
        b1.len() > 0 && b1[0] == '\n',
        b2.len() > 0 && b2[0] == '\n',
    ensures
        a1 == a2,
        b1 == b2,
{
    if a1.len() < a2.len() {
        assert((a1 + b1)[a1.len() as int] == b1[0]);
        assert((a2 + b2)[a1.len() as int] == a2[a1.len() as int]);
        assert(false);
    }
    if a2.len() < a1.len() {
        assert((a2 + b2)[a2.len() as int] == b2[0]);
        assert((a1 + b1)[a2.len() as int] == a1[a2.len() as int]);
        assert(false);
    }
    assert forall|k: int| 0 <= k < a1.len() implies a1[k] == a2[k] by {
        assert((a1 + b1)[k] == a1[k]);
        assert((a2 + b2)[k] == a2[k]);
    }
    assert(a1 =~= a2);
    lemma_cancel_common_prefix(a1, b1, b2);
}

proof fn lemma_type_text_facts(t: DesktopEntryType)
    ensures
        newline_free(t.type_text()),
        t == DesktopEntryType::Application ==> t.type_text().len() == 11,
        t == DesktopEntryType::Link ==> t.type_text().len() == 4,
        t == DesktopEntryType::Directory ==> t.type_text().len() == 9,
{
    reveal_strlit("Application");
    reveal_strlit("Link");
    reveal_strlit("Directory");
}

/// On newline-free fields the rendered text determines every field: the
/// formatter is injective. With a line break inside a field this fails:
/// the name `A` with command `B`, `Exec=C` on the name's second line,
/// renders like the name `A` on one line and the command `B`, `Exec=C`
/// spread over two.
#[verifier::rlimit(100)]
pub proof fn lemma_entry_text_injective(
    t1: DesktopEntryType,
    n1: Seq<char>,
    e1: Seq<char>,
    i1: Option<Seq<char>>,
    t2: DesktopEntryType,
    n2: Seq<char>,
    e2: Seq<char>,
    i2: Option<Seq<char>>,
)
    requires
        entry_text(t1, n1, e1, i1) == entry_text(t2, n2, e2, i2),
        newline_free(n1),
        newline_free(e1),
        newline_free(n2),
        newline_free(e2),
        (i1 matches Some(p) ==> newline_free(p)),
        (i2 matches Some(p) ==> newline_free(p)),
    ensures
        t1 == t2,
        n1 == n2,
        e1 == e2,
        i1 == i2,
{
    let h = "#!/usr/bin/env xdg-open\n[Desktop Entry]\nType="@;
    let m1 = "\nName="@;
    let m2 = "\nExec="@;
    let nl = "\n"@;
    reveal_strlit("\nName=");
    reveal_strlit("\nExec=");
    reveal_strlit("\n");
    reveal_strlit("Icon=");
    lemma_type_text_facts(t1);
    lemma_type_text_facts(t2);
    let x1 = t1.type_text();
    let x2 = t2.type_text();
    let r1 = x1 + (m1 + (n1 + (m2 + (e1 + (nl + icon_block(i1))))));
    let r2 = x2 + (m1 + (n2 + (m2 + (e2 + (nl + icon_block(i2))))));
    assert(entry_text(t1, n1, e1, i1) =~= h + r1);
    assert(entry_text(t2, n2, e2, i2) =~= h + r2);
    lemma_cancel_common_prefix(h, r1, r2);
    let s1 = m1 + (n1 + (m2 + (e1 + (nl + icon_block(i1)))));
    let s2 = m1 + (n2 + (m2 + (e2 + (nl + icon_block(i2)))));
    lemma_split_at_newline(x1, s1, x2, s2);
    assert(x1.len() == x2.len());
    assert(t1 == t2);
    lemma_cancel_common_prefix(m1, n1 + (m2 + (e1 + (nl + icon_block(i1)))), n2 + (m2 + (e2 + (
    nl + icon_block(i2)))));
    lemma_split_at_newline(
        n1,
        m2 + (e1 + (nl + icon_block(i1))),
        n2,
        m2 + (e2 + (nl + icon_block(i2))),
    );
    lemma_cancel_common_prefix(m2, e1 + (nl + icon_block(i1)), e2 + (nl + icon_block(i2)));
    lemma_split_at_newline(e1, nl + icon_block(i1), e2, nl + icon_block(i2));
    lemma_cancel_common_prefix(nl, icon_block(i1), icon_block(i2));
    match (i1, i2) {
        (None, None) => {},
        (Some(p1), Some(p2)) => {
            assert(("Icon="@ + p1 + "\n"@) =~= "Icon="@ + (p1 + nl));
            assert(("Icon="@ + p2 + "\n"@) =~= "Icon="@ + (p2 + nl));
            lemma_cancel_common_prefix("Icon="@, p1 + nl, p2 + nl);
            assert((p1 + nl).len() == (p2 + nl).len());
            assert forall|k: int| 0 <= k < p1.len() implies p1[k] == p2[k] by {
                assert((p1 + nl)[k] == p1[k]);
                assert((p2 + nl)[k] == p2[k]);
            }
            assert(p1 =~= p2);
        },
        (None, Some(p)) => {
            assert(icon_block(i2).len() >= 6);
        },
        (Some(p), None) => {
            assert(icon_block(i1).len() >= 6);
        },
    }
}

/// Whether `c` never occurs in `s`.
pub open spec fn free_of(s: Seq<char>, c: char) -> bool {
    forall|k: int| 0 <= k < s.len() ==> (#[trigger] s[k]) != c
}

/// Whether an `Icon=` line starts at position `i` of `s`: `i` opens the
/// text or follows a line break, and the five chars from `i` on read
/// `Icon=`.
pub open spec fn icon_line_at(s: Seq<char>, i: int) -> bool {
    &&& 0 <= i
    &&& i + 5 <= s.len()
    &&& (i == 0 || s[i - 1] == '\n')
    &&& s.subrange(i, i + 5) == "Icon="@
}

proof fn lemma_template_free_of_icon_start(t: DesktopEntryType)
    ensures
        free_of("#!/usr/bin/env xdg-open\n[Desktop Entry]\nType="@, 'I'),
        free_of(t.type_text(), 'I'),
        free_of("\nName="@, 'I'),
        free_of("\nExec="@, 'I'),
        free_of("\n"@, 'I'),
{
    reveal_strlit("#!/usr/bin/env xdg-open\n[Desktop Entry]\nType=");
    reveal_strlit("Application");
    reveal_strlit("Link");
    reveal_strlit("Directory");
    reveal_strlit("\nName=");
    reveal_strlit("\nExec=");
    reveal_strlit("\n");
}

/// When no icon was given, the rendered text holds no `Icon=` line at
/// all, as long as neither field smuggles one in on a line of its own.
#[verifier::rlimit(100)]
pub proof fn lemma_no_icon_line_without_icon(
    t: DesktopEntryType,
    name: Seq<char>,
    exec_cmd: Seq<char>,
)
    requires
        newline_free(name),
        newline_free(exec_cmd),
    ensures
        forall|i: int| !icon_line_at(entry_text(t, name, exec_cmd, None), i),
{
    let s = entry_text(t, name, exec_cmd, None);
    let h = "#!/usr/bin/env xdg-open\n[Desktop Entry]\nType="@;
    let x = t.type_text();
    let m1 = "\nName="@;
    let m2 = "\nExec="@;
    let nl = "\n"@;
    reveal_strlit("#!/usr/bin/env xdg-open\n[Desktop Entry]\nType=");
    reveal_strlit("\nName=");
    reveal_strlit("\nExec=");
    reveal_strlit("\n");
    reveal_strlit("Icon=");
    lemma_template_free_of_icon_start(t);
    let b1 = 45 + x.len() as int;
    let b2 = b1 + 6 + name.len();
    let b3 = b2 + 6 + exec_cmd.len();
    assert forall|k: int| 0 <= k < s.len() implies s[k] == (if k < 45 {
        h[k]
    } else if k < b1 {
        x[k - 45]
    } else if k < b1 + 6 {
        m1[k - b1]
    } else if k < b1 + 6 + name.len() {
        name[k - b1 - 6]
    } else if k < b2 + 6 {
        m2[k - b2]
    } else if k < b2 + 6 + exec_cmd.len() {
        exec_cmd[k - b2 - 6]
    } else {
        nl[k - b3]
    }) by {
        assert(s =~= h + x + m1 + name + m2 + exec_cmd + nl);
    }
    assert forall|i: int| !icon_line_at(s, i) by {
        if icon_line_at(s, i) {
            assert(s.subrange(i, i + 5)[0] == s[i]);
            assert(s[i] == 'I');
            if i == 0 {
                assert(s[0] == '#');
            } else {
                assert(s[i - 1] == '\n');
                if b1 + 6 <= i < b1 + 6 + name.len() {
                    // inside the name: the char before it is the `=` of
                    // `Name=` or another name char, never a line break
                    if i == b1 + 6 {
                        assert(s[i - 1] == m1[5]);
                    } else {
                        assert(s[i - 1] == name[i - 1 - b1 - 6]);
                    }
                } else if b2 + 6 <= i < b2 + 6 + exec_cmd.len() {
                    if i == b2 + 6 {
                        assert(s[i - 1] == m2[5]);
                    } else {
                        assert(s[i - 1] == exec_cmd[i - 1 - b2 - 6]);
                    }
                } else if i < 45 {
                    assert(s[i] == h[i]);
                } else if i < b1 {
                    assert(s[i] == x[i - 45]);
                } else if i < b1 + 6 {
                    assert(s[i] == m1[i - b1]);
                } else if i < b2 + 6 {
                    assert(s[i] == m2[i - b2]);
                } else {
                    assert(i + 5 <= s.len() && s.len() == b3 + 1);
                }
            }
            assert(false);
        }
    }
}

/// When an icon was given, exactly one `Icon=` line appears, it is the
/// last line, and it holds the given path verbatim — again as long as no
/// field smuggles a line of its own in.
#[verifier::rlimit(100)]
pub proof fn lemma_one_icon_line_with_icon(
    t: DesktopEntryType,
    name: Seq<char>,
    exec_cmd: Seq<char>,
    p: Seq<char>,
)
    requires
        newline_free(name),
        newline_free(exec_cmd),
        newline_free(p),
    ensures
        icon_line_at(
            entry_text(t, name, exec_cmd, Some(p)),
            required_block(t, name, exec_cmd).len() as int,
        ),
        forall|i: int|
            i != required_block(t, name, exec_cmd).len() ==> !icon_line_at(
                entry_text(t, name, exec_cmd, Some(p)),
                i,
            ),
        entry_text(t, name, exec_cmd, Some(p)).subrange(
            required_block(t, name, exec_cmd).len() + 5 as int,
            entry_text(t, name, exec_cmd, Some(p)).len() - 1 as int,
        ) == p,
        entry_text(t, name, exec_cmd, Some(p)).len() == required_block(t, name, exec_cmd).len()
            + 5 + p.len() + 1,
{
    let s = entry_text(t, name, exec_cmd, Some(p));
    let h = "#!/usr/bin/env xdg-open\n[Desktop Entry]\nType="@;
    let x = t.type_text();
    let m1 = "\nName="@;
    let m2 = "\nExec="@;
    let nl = "\n"@;
    let ic = "Icon="@;
    reveal_strlit("#!/usr/bin/env xdg-open\n[Desktop Entry]\nType=");
    reveal_strlit("\nName=");
    reveal_strlit("\nExec=");
    reveal_strlit("\n");
    reveal_strlit("Icon=");
    lemma_template_free_of_icon_start(t);
    let b1 = 45 + x.len() as int;
    let b2 = b1 + 6 + name.len();
    let b3 = b2 + 6 + exec_cmd.len();
    let b4 = b3 + 1;
    assert(required_block(t, name, exec_cmd).len() == b4);
    assert forall|k: int| 0 <= k < s.len() implies s[k] == (if k < 45 {
        h[k]
    } else if k < b1 {
        x[k - 45]
    } else if k < b1 + 6 {
        m1[k - b1]
    } else if k < b1 + 6 + name.len() {
        name[k - b1 - 6]
    } else if k < b2 + 6 {
        m2[k - b2]
    } else if k < b2 + 6 + exec_cmd.len() {
        exec_cmd[k - b2 - 6]
    } else if k == b3 {
        nl[0]
    } else if k < b4 + 5 {
        ic[k - b4]
    } else if k < b4 + 5 + p.len() {
        p[k - b4 - 5]
    } else {
        nl[k - b4 - 5 - p.len()]
    }) by {
        assert(s =~= h + x + m1 + name + m2 + exec_cmd + nl + ic + p + nl);
    }
    assert(s.len() == b4 + 5 + p.len() + 1);
    assert(s[b4 - 1] == '\n');
    assert(s.subrange(b4, b4 + 5) =~= ic);
    assert(icon_line_at(s, b4));
    assert(s.subrange(b4 + 5, s.len() - 1) =~= p);
    assert forall|i: int| i != b4 implies !icon_line_at(s, i) by {
        if icon_line_at(s, i) && i != b4 {
            assert(s.subrange(i, i + 5)[0] == s[i]);
            assert(s[i] == 'I');
            if i == 0 {
                assert(s[0] == '#');
            } else {
                assert(s[i - 1] == '\n');
                if b1 + 6 <= i < b1 + 6 + name.len() {
                    if i == b1 + 6 {
                        assert(s[i - 1] == m1[5]);
                    } else {
                        assert(s[i - 1] == name[i - 1 - b1 - 6]);
                    }
                } else if b2 + 6 <= i < b2 + 6 + exec_cmd.len() {
                    if i == b2 + 6 {
                        assert(s[i - 1] == m2[5]);
                    } else {
                        assert(s[i - 1] == exec_cmd[i - 1 - b2 - 6]);
                    }
                } else if b4 + 5 <= i < b4 + 5 + p.len() {
                    // inside the icon path: the char before it is the `=`
                    // of `Icon=` or another path char, never a line break
                    if i == b4 + 5 {
                        assert(s[i - 1] == ic[4]);
                    } else {
                        assert(s[i - 1] == p[i - 1 - b4 - 5]);
                    }
                } else if i < 45 {
                    assert(s[i] == h[i]);
                } else if i < b1 {
                    assert(s[i] == x[i - 45]);
                } else if i < b1 + 6 {
                    assert(s[i] == m1[i - b1]);
                } else if i < b2 + 6 {
                    assert(s[i] == m2[i - b2]);
                } else if i == b3 {
                    assert(s[i] == '\n');
                } else if i < b4 + 5 {
                    // inside `Icon=` itself, past its first char
                    assert(s[i] == ic[i - b4]);
                } else {
                    // the final line break, or past the end
                    assert(i + 5 <= s.len() && i >= s.len() - 1);
                }
            }
            assert(false);
        }
    }
}

/// Renders the request into the exact file contents: the fixed template
/// with `Type=`, `Name=`, `Exec=` in that order, then an `Icon=` line only
/// when an icon was given.
pub fn make_desktop_entry_string(req: &LaunchEntryRequest) -> (r: String)
    ensures
        r@ == req.contents(),
{
    let mut out = String::new();
    out.append("#!/usr/bin/env xdg-open\n[Desktop Entry]\nType=");
    out.append(req.entry_type.as_str());
    out.append("\nName=");
    out.append(req.name.as_str());
    out.append("\nExec=");
    out.append(req.exec_cmd.as_str());
    out.append("\n");
    match &req.icon {
        Some(p) => {
            out.append("Icon=");
            out.append(p.as_str());
            out.append("\n");
        },
        None => {},
    }
    proof {
        assert(out@ =~= req.contents());
    }
    out
}

} // verus!
