//! Paths as text, and the fixed names under which the registry lays out its files.

use vstd::prelude::*;
use vstd::utf8::encode_utf8;

verus! {

/// The application's name: the directory that holds its template root.
pub const APP_NAME: &'static str = "templater";

/// The name of the persisted record, as the config store knows it.
pub const CONFIG_NAME: &'static str = "config";

/// The tool version written into new records.
pub const APP_VERSION_STRING: &'static str = "0.1.0";

/// The directory, under the application's, that holds the templates.
pub const TEMPLATE_FOLDER_NAME: &'static str = "templates";

/// The template root, relative to a user-supplied base directory.
pub const TEMPLATE_PATH: &'static str = "templater/templates";

/// The template root, relative to the home directory.
pub const TEMPLATE_DEFAULT_PATH: &'static str = ".config/templater/templates";

/// The manifest at the root of a remote catalogue.
pub const REMOTE_TEMPLATE_CONFIG_NAME: &'static str = "config.json";

/// The scratch directory, under the template root, that holds a clone.
pub const TEMP_FOLDER_NAME: &'static str = "temp";

/// Whether a path's text ends in the separator byte `/`.
pub open spec fn ends_with_separator(p: Seq<char>) -> bool {
    encode_utf8(p).len() > 0 && encode_utf8(p).last() == 47u8
}

/// `part` placed under `base`: a separator is put between them unless `base`
/// is empty or already ends in one.
pub open spec fn join_spec(base: Seq<char>, part: Seq<char>) -> Seq<char> {
    if base.len() == 0 || ends_with_separator(base) {
        base + part
    } else {
        base + "/"@ + part
    }
}

pub fn join_path(base: &str, part: &str) -> (r: String)
    ensures
        r@ == join_spec(base@, part@),
{
    let b = base.as_bytes();
    proof {
        if base@.len() == 0 {
            assert(encode_utf8(base@) =~= Seq::<u8>::empty());
        }
    }
    if b.len() == 0 || b[b.len() - 1] == 47u8 {
        proof {
            if b.len() == 0 && base@.len() > 0 {
                assert(encode_utf8(base@) =~= vstd::utf8::encode_scalar(base@[0] as u32)
                    + encode_utf8(base@.drop_first()));
            }
        }
        base.to_owned().concat(part)
    } else {
        base.to_owned().concat("/").concat(part)
    }
}

} // verus!
