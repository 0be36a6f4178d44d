//! Resolution of the paths that scripts hand to `require`: bundled library
//! modules under `@boop/`, and files of the user's scripts directory.

use vstd::prelude::*;
use vstd::string::{StringExecFns, StrSliceExecFns};
use crate::text::chars_of;

verus! {

/// Placed before a module's source: opens a closure that hands the module
/// `exports` and `module`.
pub const MODULE_HEAD: &'static str = "
/***********************************
*     Start of Boop's wrapper      *
***********************************/
            
(function() {
    var module = {
        exports: {}
    };
            
    const moduleWrapper = (function (exports, module) {

/***********************************
*      End of Boop's wrapper      *
***********************************/

";

/// Placed after a module's source: runs the closure and yields
/// `module.exports`.
pub const MODULE_TAIL: &'static str = "
            
/***********************************
*     Start of Boop's wrapper      *
***********************************/
            
    }).apply(module.exports, [module.exports, module]);

    return module.exports;
})();
            
/***********************************
*      End of Boop's wrapper      *
***********************************/
";

pub open spec fn js_suffix() -> Seq<char> {
    seq!['.', 'j', 's']
}

pub open spec fn internal_prefix() -> Seq<char> {
    seq!['@', 'b', 'o', 'o', 'p', '/']
}

pub open spec fn library_dir() -> Seq<char> {
    seq!['l', 'i', 'b', '/']
}

/// The path with `.js` appended unless it already ends so.
pub open spec fn module_file(p: Seq<char>) -> Seq<char> {
    if p.len() >= 3 && p.subrange(p.len() - 3, p.len() as int) == js_suffix() {
        p
    } else {
        p + js_suffix()
    }
}

pub open spec fn is_internal(p: Seq<char>) -> bool {
    p.len() >= 6 && p.subrange(0, 6) == internal_prefix()
}

/// Where a module is read from.
#[derive(Clone, Debug, PartialEq)]
pub enum ModuleLocation {
    /// A bundled library script, by its path in the bundle.
    Internal(String),
    /// A file, by its path relative to the user's scripts directory.
    External(String),
}

/// A module that a script asked for.
#[derive(Clone, Debug, PartialEq)]
pub struct ModuleRequest {
    /// The path as asked for, with `.js` appended where it was missing.
    pub path: String,
    pub location: ModuleLocation,
}

/// Why a module could not be read.
#[derive(Clone, Debug, PartialEq)]
pub enum LoadError {
    NoInternalScript(String),
    BadEncoding,
    CouldNotOpen(String),
    ReadFailed,
}

/// The request for the module at `path`: `@boop/X` names the bundled
/// library script `lib/X`, anything else a file of the scripts directory.
pub fn resolve_module(path: &str) -> (r: ModuleRequest)
    ensures
        r.path@ == module_file(path@),
        is_internal(path@) ==> (r.location matches ModuleLocation::Internal(p) && p@
            == library_dir() + module_file(path@).skip(6)),
        !is_internal(path@) ==> (r.location matches ModuleLocation::External(p) && p@
            == module_file(path@)),
{
    let cs = chars_of(path);
    let n = cs.len();
    let has_suffix = n >= 3 && cs[n - 3] == '.' && cs[n - 2] == 'j' && cs[n - 1] == 's';
    assert(has_suffix <==> (path@.len() >= 3 && path@.subrange(path@.len() - 3, path@.len() as int)
        == js_suffix())) by {
        if path@.len() >= 3 {
            let w = path@.subrange(path@.len() - 3, path@.len() as int);
            assert(w[0] == path@[path@.len() - 3]);
            assert(w[1] == path@[path@.len() - 2]);
            assert(w[2] == path@[path@.len() - 1]);
            if has_suffix {
                assert(w =~= js_suffix());
            }
        }
    }
    let mut file = String::from_str(path);
    if !has_suffix {
        proof {
            reveal_strlit(".js");
            assert(".js"@ =~= js_suffix());
        }
        file.append(".js");
    }
    let internal = n >= 6 && cs[0] == '@' && cs[1] == 'b' && cs[2] == 'o' && cs[3] == 'o' && cs[4]
        == 'p' && cs[5] == '/';
    assert(internal <==> is_internal(path@)) by {
        if path@.len() >= 6 {
            let w = path@.subrange(0, 6);
            if internal {
                assert(w =~= internal_prefix());
            }
            if w == internal_prefix() {
                assert(w[0] == '@' && w[1] == 'b' && w[2] == 'o' && w[3] == 'o' && w[4] == 'p'
                    && w[5] == '/');
            }
        }
    }
    let location = if internal {
        let fl = file.as_str().unicode_len();
        let rest = file.as_str().substring_char(6, fl);
        let mut p = String::from_str("lib/");
        proof {
            reveal_strlit("lib/");
            assert("lib/"@ =~= library_dir());
        }
        p.append(rest);
        assert(rest@ =~= module_file(path@).skip(6));
        ModuleLocation::Internal(p)
    } else {
        ModuleLocation::External(file.clone())
    };
    ModuleRequest { path: file, location }
}

/// A module's source placed inside the closure that gives it `module` and
/// `exports`; running the result yields the module's exports.
pub fn wrap_module(source: &str) -> (r: String)
    ensures
        r@ == MODULE_HEAD@ + source@ + MODULE_TAIL@,
{
    let mut r = String::from_str(MODULE_HEAD);
    r.append(source);
    r.append(MODULE_TAIL);
    r
}

/// `s` in double quotes.
pub open spec fn quoted(s: Seq<char>) -> Seq<char> {
    seq!['"'] + s + seq!['"']
}

/// The message of a load error, as the requiring script sees it thrown.
pub open spec fn load_error_message(e: LoadError) -> Seq<char> {
    match e {
        LoadError::NoInternalScript(p) => "No internal script with path "@ + quoted(p@),
        LoadError::BadEncoding => "Problem with file encoding"@,
        LoadError::CouldNotOpen(p) => "Could not open "@ + quoted(p@),
        LoadError::ReadFailed => "Problem reading file"@,
    }
}

fn push_quoted(out: &mut String, s: &str)
    ensures
        final(out)@ == old(out)@ + quoted(s@),
{
    proof {
        reveal_strlit("\"");
    }
    out.append("\"");
    out.append(s);
    out.append("\"");
    assert(out@ =~= old(out)@ + quoted(s@));
}

impl LoadError {
    pub fn message(&self) -> (r: String)
        ensures
            r@ == load_error_message(*self),
    {
        match self {
            LoadError::NoInternalScript(p) => {
                let mut r = String::from_str("No internal script with path ");
                push_quoted(&mut r, p.as_str());
                r
            },
            LoadError::BadEncoding => String::from_str("Problem with file encoding"),
            LoadError::CouldNotOpen(p) => {
                let mut r = String::from_str("Could not open ");
                push_quoted(&mut r, p.as_str());
                r
            },
            LoadError::ReadFailed => String::from_str("Problem reading file"),
        }
    }
}

/// What a lookup of a module's text found.
#[derive(Clone, Debug, PartialEq)]
pub enum Lookup {
    /// No such entry in the bundle, or no such file.
    Absent,
    /// The entry or file is there but could not be read as UTF-8 text.
    Unreadable,
    Found(String),
}

/// The source of a requested module from what the lookup of its location
/// found: a bundled module is looked up in the bundle only, any other in
/// the scripts directory only (the caller looks where `request.location`
/// says). The errors name the path as the script asked for it.
pub fn module_outcome(request: &ModuleRequest, found: Lookup) -> (r: Result<String, LoadError>)
    ensures
        match (request.location, found) {
            (_, Lookup::Found(t)) => r == Ok::<String, LoadError>(t),
            (ModuleLocation::Internal(_), Lookup::Absent) => r matches Err(
                LoadError::NoInternalScript(p),
            ) && p@ == request.path@,
            (ModuleLocation::Internal(_), Lookup::Unreadable) => r == Err::<String, LoadError>(
                LoadError::BadEncoding,
            ),
            (ModuleLocation::External(_), Lookup::Absent) => r matches Err(
                LoadError::CouldNotOpen(p),
            ) && p@ == request.path@,
            (ModuleLocation::External(_), Lookup::Unreadable) => r == Err::<String, LoadError>(
                LoadError::ReadFailed,
            ),
        },
{
    match found {
        Lookup::Found(t) => Ok(t),
        Lookup::Absent => match &request.location {
            ModuleLocation::Internal(_) => Err(LoadError::NoInternalScript(request.path.clone())),
            ModuleLocation::External(_) => Err(LoadError::CouldNotOpen(request.path.clone())),
        },
        Lookup::Unreadable => match &request.location {
            ModuleLocation::Internal(_) => Err(LoadError::BadEncoding),
            ModuleLocation::External(_) => Err(LoadError::ReadFailed),
        },
    }
}

/// What `require` hands on once a module was looked for: the wrapped source
/// to compile and run, or the message to throw at the requiring script.
pub fn require_source(loaded: Result<String, LoadError>) -> (r: Result<String, String>)
    ensures
        match loaded {
            Ok(s) => r matches Ok(w) && w@ == MODULE_HEAD@ + s@ + MODULE_TAIL@,
            Err(e) => r matches Err(m) && m@ == load_error_message(e),
        },
{
    match loaded {
        Ok(s) => Ok(wrap_module(s.as_str())),
        Err(e) => Err(e.message()),
    }
}

} // verus!
