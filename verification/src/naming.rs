//! Names under which uploads are stored and published.

use rand::distributions::Alphanumeric;
use rand::distributions::DistString;
use vstd::prelude::*;
use vstd::string::*;

verus! {

/// Position of the last `.` of `name`, or `-1` when it has none.
pub open spec fn last_dot(name: Seq<char>) -> int
    decreases name.len(),
{
    if name.len() == 0 {
        -1
    } else if name.last() == '.' {
        name.len() - 1
    } else {
        last_dot(name.drop_last())
    }
}

/// The extension of `name`: everything from its last `.` on, the dot
/// included; empty when `name` holds no dot.
pub open spec fn file_ending(name: Seq<char>) -> Seq<char> {
    if last_dot(name) < 0 {
        Seq::empty()
    } else {
        name.subrange(last_dot(name), name.len() as int)
    }
}

/// `last_dot` is the greatest index that holds a dot.
pub proof fn lemma_last_dot(name: Seq<char>)
    ensures
        -1 <= last_dot(name) < name.len(),
        last_dot(name) >= 0 ==> name[last_dot(name)] == '.',
        forall|j: int| last_dot(name) < j < name.len() ==> name[j] != '.',
    decreases name.len(),
{
    if name.len() > 0 && name.last() != '.' {
        let front = name.drop_last();
        lemma_last_dot(front);
        assert forall|j: int| last_dot(name) < j < name.len() implies name[j] != '.' by {
            if j < front.len() {
                assert(front[j] == name[j]);
            }
        }
    }
}

/// Extension of an uploaded file's original name, by the last-dot rule.
pub fn get_file_ending(name: &str) -> (ending: &str)
    ensures
        ending@ == file_ending(name@),
{
    let total = name.unicode_len();
    let mut found: Option<usize> = None;
    let mut index: usize = 0;
    for c in it: name.chars()
        invariant
            it.seq() == name@,
            index == it.index(),
            total == name@.len(),
            match found {
                Some(at) => at == last_dot(name@.take(index as int)),
                None => last_dot(name@.take(index as int)) == -1,
            },
    {
        proof {
            assert(name@.take(index + 1).drop_last() == name@.take(index as int));
        }
        if c == '.' {
            found = Some(index);
        }
        index += 1;
    }
    proof {
        assert(name@.take(index as int) == name@);
        lemma_last_dot(name@);
    }
    match found {
        Some(at) => name.substring_char(at, total),
        None => name.substring_char(0, 0),
    }
}

/// Whether `c` is an ASCII letter or digit.
pub open spec fn is_alphanumeric(c: char) -> bool {
    let code = c as u32;
    ||| 0x30 <= code <= 0x39
    ||| 0x41 <= code <= 0x5a
    ||| 0x61 <= code <= 0x7a
}

/// Whether `token` is made of `length` ASCII letters and digits.
pub open spec fn is_token(token: Seq<char>, length: nat) -> bool {
    &&& token.len() == length
    &&& forall|i: int| 0 <= i < token.len() ==> is_alphanumeric(#[trigger] token[i])
}

/// Calls `DistString::sample_string` of the `rand` crate on its
/// `Alphanumeric` distribution, with the thread's generator: `length`
/// characters, each drawn from the ASCII letters and digits. Which
/// characters come is left open. The generator is seeded by the operating
/// system when a thread first uses it, and panics if no seed can be had;
/// no argument decides that.
#[verifier::external_body]
fn random_alphanumeric(length: usize) -> (token: String)
    ensures
        is_token(token@, length as nat),
{
    Alphanumeric.sample_string(&mut rand::thread_rng(), length)
}

/// A fresh random token: the body of a stored name, or an API key.
pub fn fresh_token(length: usize) -> (token: String)
    ensures
        is_token(token@, length as nat),
{
    random_alphanumeric(length)
}

/// The name under which an upload is stored: a token, then the extension
/// of the name that the client gave.
pub open spec fn stored_name_of(token: Seq<char>, original_name: Seq<char>) -> Seq<char> {
    token + file_ending(original_name)
}

pub fn stored_name(token: &str, original_name: &str) -> (name: String)
    ensures
        name@ == stored_name_of(token@, original_name@),
{
    let mut name = String::from_str(token);
    name.append(get_file_ending(original_name));
    name
}

/// The address under which a stored file is published.
pub open spec fn url_of(base_url: Seq<char>, name: Seq<char>) -> Seq<char> {
    base_url + seq!['/'] + name
}

pub fn public_url(base_url: &str, name: &str) -> (url: String)
    ensures
        url@ == url_of(base_url@, name@),
{
    proof {
        reveal_strlit("/");
    }
    let mut url = String::from_str(base_url);
    url.append("/");
    url.append(name);
    assert("/"@ =~= seq!['/']);
    url
}

/// Where the blob of a stored name lies, relative to the service's
/// working directory.
pub open spec fn blob_path_of(name: Seq<char>) -> Seq<char> {
    "./files/"@ + name
}

pub fn blob_path(name: &str) -> (path: String)
    ensures
        path@ == blob_path_of(name@),
{
    let mut path = String::from_str("./files/");
    path.append(name);
    path
}

} // verus!
