//! Where the language server lives on disk.
//!
//! Paths are strings with `/` as the separator, as on the WASI target that
//! editor extensions run on.
use vstd::prelude::*;

verus! {

/// Where a project's own npm install puts the server, below the project root.
pub const SERVER_PATH: &'static str = "node_modules/.bin/oxc_language_server";

/// The directory below which the host installs npm packages for the extension.
pub const NODE_MODULES_DIR: &'static str = "./node_modules";

/// The file name of the server inside a platform package.
pub const SERVER_FILE: &'static str = "oxc_language_server";

/// A path that may be appended to another: not empty and not absolute.
pub open spec fn is_relative(p: Seq<char>) -> bool {
    p.len() > 0 && p[0] != '/'
}

/// `base` followed by the relative path `rel`, with one separator between them
/// unless `base` is empty or already ends in one.
pub open spec fn spec_join(base: Seq<char>, rel: Seq<char>) -> Seq<char> {
    if base.len() == 0 || base.last() == '/' {
        base + rel
    } else {
        base + seq!['/'] + rel
    }
}

/// The server inside a project's own `node_modules`.
pub open spec fn spec_local_server_path(root: Seq<char>) -> Seq<char> {
    spec_join(root, "node_modules/.bin/oxc_language_server"@)
}

/// The server inside the extension's install of a platform package.
pub open spec fn spec_installed_server_path(package: Seq<char>) -> Seq<char> {
    spec_join("./node_modules"@, package + "/oxc_language_server"@)
}

/// Appends the relative path `rel` to `base`.
pub fn join(base: &str, rel: &str) -> (r: String)
    requires
        is_relative(rel@),
    ensures
        r@ == spec_join(base@, rel@),
{
    let n = base.unicode_len();
    let mut out = base.to_owned();
    if n > 0 && base.get_char(n - 1) != '/' {
        out.append("/");
        proof {
            reveal_strlit("/");
        }
    }
    out.append(rel);
    out
}

/// The path at which a project's own install of the server would be.
pub fn local_server_path(root: &str) -> (r: String)
    ensures
        r@ == spec_local_server_path(root@),
{
    proof {
        reveal_strlit("node_modules/.bin/oxc_language_server");
    }
    join(root, SERVER_PATH)
}

/// The path at which the extension's install of `package` holds the server.
pub fn installed_server_path(package: &str) -> (r: String)
    requires
        is_relative(package@),
    ensures
        r@ == spec_installed_server_path(package@),
{
    let mut rel = package.to_owned();
    rel.append("/");
    rel.append(SERVER_FILE);
    proof {
        reveal_strlit("/oxc_language_server");
        reveal_strlit("/");
        reveal_strlit("oxc_language_server");
        assert(rel@ =~= package@ + "/oxc_language_server"@);
        assert(rel@[0] == package@[0]);
    }
    join(NODE_MODULES_DIR, rel.as_str())
}

} // verus!
