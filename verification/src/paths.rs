//! Destination resolution: derives a safe filename from the entry name and
//! computes the directory the entry file belongs in.

use vstd::prelude::*;
use crate::chars::{
    char_is_alphanumeric, char_is_whitespace, is_alphanumeric_char, is_whitespace_char,
};

verus! {

/// What one char of the entry name contributes to the derived filename:
/// whitespace becomes `_`, then anything that is not alphanumeric, `-`,
/// `_` or `.` is dropped.
pub open spec fn sanitize_char(c: char) -> Seq<char> {
    let m = if is_whitespace_char(c) {
        '_'
    } else {
        c
    };
    if is_alphanumeric_char(m) || m == '-' || m == '_' || m == '.' {
        seq![m]
    } else {
        Seq::<char>::empty()
    }
}

/// The sanitized form of an entry name: each char mapped by
/// `sanitize_char`, in order.
pub open spec fn sanitized(s: Seq<char>) -> Seq<char>
    decreases s.len(),
{
    if s.len() == 0 {
        Seq::<char>::empty()
    } else {
        sanitized(s.drop_last()) + sanitize_char(s.last())
    }
}

/// Relies on String::push: appends the one char.
#[verifier::external_body]
fn push_char(s: &mut String, c: char)
    ensures
        final(s)@ == old(s)@.push(c),
{
    s.push(c)
}

/// Derives the output filename from the entry name: whitespace mapped to
/// `_`, every char that is not alphanumeric, `-`, `_` or `.` dropped, and
/// the fixed extension appended.
pub fn filename_from_name(app_name: &str) -> (r: String)
    ensures
        r@ == sanitized(app_name@) + ".desktop"@,
{
    let n = app_name.unicode_len();
    let mut out = String::new();
    let mut i: usize = 0;
    while i < n
        invariant
            i <= n,
            n == app_name@.len(),
            out@ == sanitized(app_name@.take(i as int)),
        decreases n - i,
    {
        let c = app_name.get_char(i);
        let m = if char_is_whitespace(c) {
            '_'
        } else {
            c
        };
        if char_is_alphanumeric(m) || m == '-' || m == '_' || m == '.' {
            push_char(&mut out, m);
        }
        proof {
            assert(app_name@.take(i + 1).drop_last() =~= app_name@.take(i as int));
            assert(app_name@.take(i + 1).last() == app_name@[i as int]);
        }
        i = i + 1;
    }
    proof {
        assert(app_name@.take(n as int) =~= app_name@);
    }
    out.concat(".desktop")
}

/// A char the derived filename may hold: never whitespace, and always
/// alphanumeric or one of `-`, `_`, `.`.
pub open spec fn filename_char_ok(c: char) -> bool {
    !is_whitespace_char(c) && (is_alphanumeric_char(c) || c == '-' || c == '_' || c == '.')
}

/// An ASCII char the derived filename may hold: one of `[A-Za-z0-9._-]`.
pub open spec fn ascii_filename_char(c: char) -> bool {
    ('a' <= c && c <= 'z') || ('A' <= c && c <= 'Z') || ('0' <= c && c <= '9') || c == '-' || c
        == '_' || c == '.'
}

/// Every char of a sanitized name is free of whitespace and drawn from
/// the allowed set: alphanumeric, `-`, `_` or `.`.
pub proof fn lemma_sanitized_chars(s: Seq<char>)
    ensures
        forall|k: int|
            0 <= k < sanitized(s).len() ==> #[trigger] filename_char_ok(sanitized(s)[k]),
    decreases s.len(),
{
    if s.len() > 0 {
        lemma_sanitized_chars(s.drop_last());
        let pre = sanitized(s.drop_last());
        let tail = sanitize_char(s.last());
        assert forall|k: int| 0 <= k < sanitized(s).len() implies #[trigger] filename_char_ok(
            sanitized(s)[k],
        ) by {
            if k < pre.len() {
                assert(sanitized(s)[k] == pre[k]);
            } else {
                assert(sanitized(s)[k] == tail[k - pre.len()]);
            }
        }
    }
}

/// For a name made of ASCII chars, every char of the sanitized form lies
/// in `[A-Za-z0-9._-]`; in particular none is whitespace.
pub proof fn lemma_sanitized_ascii(s: Seq<char>)
    requires
        forall|k: int| 0 <= k < s.len() ==> ((#[trigger] s[k]) as u32) < 128,
    ensures
        forall|k: int|
            0 <= k < sanitized(s).len() ==> #[trigger] ascii_filename_char(sanitized(s)[k]),
    decreases s.len(),
{
    if s.len() > 0 {
        assert(forall|k: int|
            0 <= k < s.drop_last().len() ==> ((#[trigger] s.drop_last()[k]) as u32) < 128);
        lemma_sanitized_ascii(s.drop_last());
        let pre = sanitized(s.drop_last());
        let tail = sanitize_char(s.last());
        assert(((s.last()) as u32) < 128);
        assert forall|k: int| 0 <= k < sanitized(s).len() implies #[trigger] ascii_filename_char(
            sanitized(s)[k],
        ) by {
            if k < pre.len() {
                assert(sanitized(s)[k] == pre[k]);
            } else {
                assert(sanitized(s)[k] == tail[k - pre.len()]);
            }
        }
    }
}

/// Every char of the whole derived filename — extension included — is
/// free of whitespace and drawn from the allowed set.
pub proof fn lemma_derived_filename_chars(s: Seq<char>)
    ensures
        forall|k: int|
            0 <= k < (sanitized(s) + ".desktop"@).len() ==> #[trigger] filename_char_ok(
                (sanitized(s) + ".desktop"@)[k],
            ),
{
    lemma_sanitized_chars(s);
    reveal_strlit(".desktop");
    let full = sanitized(s) + ".desktop"@;
    assert forall|k: int| 0 <= k < full.len() implies #[trigger] filename_char_ok(full[k]) by {
        if k < sanitized(s).len() {
            assert(full[k] == sanitized(s)[k]);
        } else {
            assert(full[k] == ".desktop"@[k - sanitized(s).len()]);
        }
    }
}

/// For a name of ASCII chars the whole derived filename lies in
/// `[A-Za-z0-9._-]`, and it ends in the fixed extension.
pub proof fn lemma_derived_filename_ascii(s: Seq<char>)
    requires
        forall|k: int| 0 <= k < s.len() ==> ((#[trigger] s[k]) as u32) < 128,
    ensures
        forall|k: int|
            0 <= k < (sanitized(s) + ".desktop"@).len() ==> #[trigger] ascii_filename_char(
                (sanitized(s) + ".desktop"@)[k],
            ),
        (sanitized(s) + ".desktop"@).skip(sanitized(s).len() as int) == ".desktop"@,
{
    lemma_sanitized_ascii(s);
    reveal_strlit(".desktop");
    let full = sanitized(s) + ".desktop"@;
    assert(full.skip(sanitized(s).len() as int) =~= ".desktop"@);
    assert forall|k: int| 0 <= k < full.len() implies #[trigger] ascii_filename_char(full[k]) by {
        if k < sanitized(s).len() {
            assert(full[k] == sanitized(s)[k]);
        } else {
            assert(full[k] == ".desktop"@[k - sanitized(s).len()]);
        }
    }
}

/// The one failure of destination resolution: no home or data directory
/// could be determined for the current user.
#[derive(Clone, Copy, PartialEq, Eq, Structural, Debug)]
pub enum PathError {
    NoDataHome,
}

#[verifier::external_type_specification]
#[verifier::external_body]
pub struct ExBaseDirectories(xdg::BaseDirectories);

/// Relies on xdg::BaseDirectories::new: reads the XDG environment
/// variables and the home directory; never fails.
pub assume_specification[ xdg::BaseDirectories::new ]() -> (r: xdg::BaseDirectories);

/// Relies on xdg::BaseDirectories::get_data_home: the per-user XDG data
/// directory, `None` exactly when no home directory could be determined.
/// A path that is not valid UTF-8 is also handed back as `None`.
#[verifier::external_body]
fn data_home_of(dirs: &xdg::BaseDirectories) -> (r: Option<String>) {
    dirs.get_data_home().and_then(|p| p.to_str().map(|s| s.to_string()))
}

/// The `applications` subpath under a data directory, with exactly one
/// separator between the two.
pub open spec fn joined_dir(h: Seq<char>) -> Seq<char> {
    if h.len() > 0 && h.last() == '/' {
        h + "applications"@
    } else {
        h + "/applications"@
    }
}

/// Appends the `applications` subpath to the given data directory.
pub fn applications_dir_under(data_home: &str) -> (r: String)
    ensures
        r@ == joined_dir(data_home@),
{
    let n = data_home.unicode_len();
    let mut out = data_home.to_owned();
    if n > 0 && data_home.get_char(n - 1) == '/' {
        out.append("applications");
    } else {
        out.append("/applications");
    }
    out
}

/// Computes the destination directory: the fixed system-wide directory
/// when `global` is set, otherwise `applications` under the per-user XDG
/// data directory; fails only when that directory cannot be determined.
pub fn get_xdg_applications_dir(global: bool) -> (r: Result<String, PathError>)
    ensures
        global ==> (r matches Ok(d) && d@ == "/usr/share/applications"@),
        !global ==> (match r {
            Ok(d) => exists|h: Seq<char>| d@ == joined_dir(h),
            Err(e) => e == PathError::NoDataHome,
        }),
{
    if global {
        Ok("/usr/share/applications".to_owned())
    } else {
        let dirs = xdg::BaseDirectories::new();
        match data_home_of(&dirs) {
            Some(h) => {
                let d = applications_dir_under(h.as_str());
                proof {
                    assert(d@ == joined_dir(h@));
                }
                Ok(d)
            },
            None => Err(PathError::NoDataHome),
        }
    }
}

} // verus!
