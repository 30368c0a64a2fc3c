//! The computational core of one run: from a validated request to the
//! destination directory, the destination filename and the rendered file
//! contents. The surroundings then only perform the write protocol.

use vstd::prelude::*;
use crate::entry::{LaunchEntryRequest, make_desktop_entry_string};
use crate::paths::{
    PathError, filename_from_name, get_xdg_applications_dir, joined_dir, sanitized,
};

verus! {

/// Everything the file writer needs for one run: where to write, under
/// which name, and what.
pub struct PlannedWrite {
    /// Absolute destination directory.
    pub dir: String,
    /// Destination filename inside `dir`.
    pub filename: String,
    /// The full rendered entry text.
    pub contents: String,
}

impl LaunchEntryRequest {
    /// The filename this request resolves to: the explicit one verbatim,
    /// else derived from the entry name.
    pub open spec fn chosen_filename(&self) -> Seq<char> {
        match self.filename {
            Some(f) => f@,
            None => sanitized(self.name@) + ".desktop"@,
        }
    }
}

/// Whether `dir` is a destination directory the request allows: the fixed
/// system-wide one when `global` is set, otherwise `applications` under
/// some per-user data directory.
pub open spec fn valid_destination_dir(global: bool, dir: Seq<char>) -> bool {
    if global {
        dir == "/usr/share/applications"@
    } else {
        exists|h: Seq<char>| dir == joined_dir(h)
    }
}

/// Resolves the destination and renders the contents. Fails exactly when
/// a per-user destination is wanted but no data directory can be
/// determined.
pub fn plan_entry(req: &LaunchEntryRequest) -> (r: Result<PlannedWrite, PathError>)
    ensures
        req.global ==> r is Ok,
        r matches Err(e) ==> !req.global && e == PathError::NoDataHome,
        r matches Ok(p) ==> {
            &&& valid_destination_dir(req.global, p.dir@)
            &&& p.filename@ == req.chosen_filename()
            &&& p.contents@ == req.contents()
        },
{
    let dir = match get_xdg_applications_dir(req.global) {
        Ok(d) => d,
        Err(e) => {
            return Err(e);
        },
    };
    let filename = match &req.filename {
        Some(f) => f.clone(),
        None => filename_from_name(req.name.as_str()),
    };
    let contents = make_desktop_entry_string(req);
    Ok(PlannedWrite { dir, filename, contents })
}

impl PlannedWrite {
    /// The full destination path: directory, separator, filename.
    pub fn dest_path(&self) -> (r: String)
        ensures
            r@ == self.dir@ + "/"@ + self.filename@,
    {
        let mut out = self.dir.clone();
        out.append("/");
        out.append(self.filename.as_str());
        proof {
            assert(out@ =~= self.dir@ + "/"@ + self.filename@);
        }
        out
    }
}

} // verus!
