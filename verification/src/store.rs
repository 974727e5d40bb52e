use crate::text::{chars_of, ends_with};
use vstd::prelude::*;
use vstd::string::StrSliceExecFns;

verus! {

/// The directory below the home directory that holds the stored keys, one directory for each
/// network.
pub const NEAR_CREDENTIALS_DIR: &'static str = ".near-credentials";

/// The ending of the name of a file that holds a key.
pub const KEY_FILE_SUFFIX: &'static str = ".json";

/// The account that a key file is named after: the file's name without the ending of key
/// files, or the whole name where it has no such ending.
pub open spec fn account_name_of(file_name: Seq<char>) -> Seq<char> {
    if KEY_FILE_SUFFIX@.is_suffix_of(file_name) {
        file_name.subrange(0, file_name.len() - KEY_FILE_SUFFIX@.len())
    } else {
        file_name
    }
}

/// The account that the key file with this name is stored for.
pub fn account_name(file_name: &str) -> (name: String)
    ensures
        name@ == account_name_of(file_name@),
{
    let chars = chars_of(file_name);
    let suffix = chars_of(KEY_FILE_SUFFIX);
    if ends_with(&chars, &suffix) {
        let kept: usize = chars.len() - suffix.len();
        String::from_str(file_name.substring_char(0, kept))
    } else {
        String::from_str(file_name)
    }
}

/// Without its ending, the name of a key file is what stood before the ending.
pub proof fn law_suffix_is_stripped(account: Seq<char>)
    ensures
        account_name_of(account + KEY_FILE_SUFFIX@) == account,
{
    let file_name = account + KEY_FILE_SUFFIX@;
    assert(file_name.subrange(file_name.len() - KEY_FILE_SUFFIX@.len(), file_name.len() as int)
        =~= KEY_FILE_SUFFIX@);
    assert(file_name.subrange(0, file_name.len() - KEY_FILE_SUFFIX@.len()) =~= account);
}

} // verus!
