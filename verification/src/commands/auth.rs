//! The `anytype auth` commands, and where the plugin keeps its credentials.
use vstd::prelude::*;
use vstd::utf8::{decode_utf8, encode_utf8, is_char_boundary, valid_utf8};
use super::{Cell, CellView, LabeledError, Record, plain_error, record_view};
use crate::text::{chars_of, concat, concat3, is_ascii_digit, owned, trim, trimmed};

verus! {

broadcast use vstd::string::group_string_axioms, vstd::utf8::group_utf8_lib;

/// Command: anytype auth login
pub struct AuthLogin;

/// Command: anytype auth delete
pub struct AuthDelete;

/// Command: anytype auth status
pub struct AuthStatus;

/// Whether a code is the four-digit code the Anytype app shows.
pub open spec fn is_code(code: Seq<char>) -> bool {
    code.len() == 4 && forall|i: int| 0 <= i < code.len() ==> is_ascii_digit(#[trigger] code[i])
}

/// Whether `code` is a valid authentication code: exactly four ASCII digits.
pub fn is_valid_code(code: &str) -> (r: bool)
    ensures
        r == is_code(code@),
{
    let chars = chars_of(code);
    if chars.len() != 4 {
        return false;
    }
    let mut i: usize = 0;
    while i < chars.len()
        invariant
            chars@ == code@,
            chars@.len() == 4,
            0 <= i <= chars@.len(),
            forall|j: int| 0 <= j < i ==> is_ascii_digit(#[trigger] chars@[j]),
        decreases chars.len() - i,
    {
        let c = chars[i];
        if !('0' <= c && c <= '9') {
            return false;
        }
        i = i + 1;
    }
    true
}

/// The number of bytes of the head of a key that is shown: eight, or all of
/// a shorter key.
pub open spec fn shown_head(n: int) -> int {
    if n < 8 {
        n
    } else {
        8
    }
}

/// Whether a key can be shown in part: its head and, for a key longer than
/// sixteen bytes, its last eight bytes end and begin at character boundaries.
pub open spec fn maskable(key: Seq<char>) -> bool {
    let b = encode_utf8(key);
    &&& is_char_boundary(b, shown_head(b.len() as int))
    &&& b.len() > 16 ==> is_char_boundary(b, b.len() - 8)
}

/// A key shown in part: its first eight bytes, `...`, and, for a key longer
/// than sixteen bytes, its last eight bytes.
pub open spec fn masked_key(key: Seq<char>) -> Seq<char> {
    let b = encode_utf8(key);
    let n = b.len() as int;
    decode_utf8(b.subrange(0, shown_head(n))) + "..."@ + if n > 16 {
        decode_utf8(b.subrange(n - 8, n))
    } else {
        Seq::<char>::empty()
    }
}

/// The API key as the commands show it: its first eight bytes and, for a key
/// longer than sixteen bytes, its last eight, around `...`.
pub fn mask_api_key(key: &str) -> (r: String)
    requires
        encode_utf8(key@).len() <= usize::MAX,
        maskable(key@),
    ensures
        r@ == masked_key(key@),
{
    let n = key.len();
    let head_len = if n < 8 { n } else { 8 };
    let (head, _) = key.split_at(head_len);
    let empty = String::new();
    let tail: &str = if n > 16 {
        let (_, t) = key.split_at(n - 8);
        t
    } else {
        empty.as_str()
    };
    proof {
        assert(head@ == decode_utf8(encode_utf8(head@)));
        if n > 16 {
            assert(tail@ == decode_utf8(encode_utf8(tail@)));
        }
    }
    concat3(head, "...", tail)
}

/// The bytes of two texts one after the other are the bytes of each.
proof fn lemma_encode_concat(a: Seq<char>, b: Seq<char>)
    ensures
        encode_utf8(a + b) == encode_utf8(a) + encode_utf8(b),
    decreases a.len(),
{
    if a.len() == 0 {
        assert(a + b =~= b);
        assert(encode_utf8(a) =~= Seq::<u8>::empty());
        assert(encode_utf8(a) + encode_utf8(b) =~= encode_utf8(b));
    } else {
        lemma_encode_concat(a.drop_first(), b);
        assert((a + b).drop_first() =~= a.drop_first() + b);
        assert((a + b)[0] == a[0]);
    }
}

/// A key shown in part shows its first bytes (eight, or all of a shorter
/// key), then `...`, then, for a key longer than sixteen bytes, its last
/// eight bytes, and nothing else of it.
pub proof fn law_masked_key_shows_only_its_ends(key: Seq<char>)
    requires
        maskable(key),
    ensures
        ({
            let b = encode_utf8(key);
            let n = b.len() as int;
            encode_utf8(masked_key(key)) == b.subrange(0, shown_head(n)) + encode_utf8("..."@) + if n > 16 {
                b.subrange(n - 8, n)
            } else {
                Seq::<u8>::empty()
            }
        }),
{
    let b = encode_utf8(key);
    let n = b.len() as int;
    let h = shown_head(n);
    let head = decode_utf8(b.subrange(0, h));
    let tail = if n > 16 { decode_utf8(b.subrange(n - 8, n)) } else { Seq::<char>::empty() };
    assert(valid_utf8(b));
    assert(valid_utf8(b.subrange(0, h)));
    assert(encode_utf8(head) == b.subrange(0, h));
    if n > 16 {
        assert(valid_utf8(b.subrange(n - 8, n)));
        assert(encode_utf8(tail) == b.subrange(n - 8, n));
    } else {
        assert(encode_utf8(tail) =~= Seq::<u8>::empty());
    }
    lemma_encode_concat(head, "..."@);
    lemma_encode_concat(head + "..."@, tail);
}

/// The API key read from the file that holds it: its text without the white
/// space around it, or none where that is empty.
pub fn api_key_from_contents(contents: &str) -> (r: Option<String>)
    ensures
        match r {
            Some(k) => k@ == trimmed(contents@) && k@.len() > 0,
            None => trimmed(contents@).len() == 0,
        },
{
    let key = trim(contents);
    if key.as_str().is_empty() {
        None
    } else {
        Some(key)
    }
}

/// The challenge id read from the file that holds it: its text without the
/// white space around it; an empty file is an error.
pub fn challenge_from_contents(contents: &str) -> (r: Result<String, String>)
    ensures
        match r {
            Ok(c) => c@ == trimmed(contents@) && c@.len() > 0,
            Err(e) => trimmed(contents@).len() == 0 && e@ == "Challenge ID file is empty"@,
        },
{
    let id = trim(contents);
    if id.as_str().is_empty() {
        Err(owned("Challenge ID file is empty"))
    } else {
        Ok(id)
    }
}

/// The path `Path::join` makes of `base` and `name`: `name` under `base`,
/// joined with the separator of the platform the program is built for.
pub uninterp spec fn path_joined(base: Seq<char>, name: Seq<char>) -> Seq<char>;

/// `std::path::Path::join` of a directory and a file name, as a text.  The
/// separator is the platform's, so the result is named `path_joined`.
#[verifier::external_body]
fn join_path(base: &str, name: &str) -> (r: String)
    ensures
        r@ == path_joined(base@, name@),
{
    std::path::Path::new(base).join(name).to_string_lossy().into_owned()
}

/// The directory the plugin keeps its files in, within the user's
/// configuration directory.
pub fn config_dir(user_config_dir: &str) -> (r: String)
    ensures
        r@ == path_joined(user_config_dir@, "anytype-cli"@),
{
    join_path(user_config_dir, "anytype-cli")
}

/// The file holding the API key, within the plugin's directory.
pub fn api_key_file(config_dir: &str) -> (r: String)
    ensures
        r@ == path_joined(config_dir@, "api_key"@),
{
    join_path(config_dir, "api_key")
}

/// The file holding the pending challenge id, within the plugin's directory.
pub fn challenge_file(config_dir: &str) -> (r: String)
    ensures
        r@ == path_joined(config_dir@, "challenge_id"@),
{
    join_path(config_dir, "challenge_id")
}

/// What checking the stored credentials found.
#[derive(Debug, PartialEq)]
pub enum Credentials {
    /// No API key is stored.
    Missing,
    /// An API key is stored; listing the spaces with it found so many
    /// spaces, or failed with the error text.
    Stored { api_key: String, spaces: Result<usize, String> },
}

impl AuthLogin {
    /// The name the shell calls the command by.
    pub fn name(&self) -> (r: &'static str)
        ensures
            r@ == "anytype auth login"@,
    {
        "anytype auth login"
    }

    /// The description the shell shows for the command.
    pub fn description(&self) -> (r: &'static str)
        ensures
            r@ == "Authenticate with the local Anytype app"@,
    {
        "Authenticate with the local Anytype app"
    }

    /// The code given to complete the login, which must be four digits.
    pub fn check_code(code: &str) -> (r: Result<(), LabeledError>)
        ensures
            r is Ok <==> is_code(code@),
            r matches Err(e) ==> plain_error(e, "Invalid code format. Expected 4 digits."@),
    {
        if is_valid_code(code) {
            Ok(())
        } else {
            Err(LabeledError::new("Invalid code format. Expected 4 digits."))
        }
    }

    /// The error when no challenge is pending.
    pub fn challenge_failure(detail: &str) -> (e: LabeledError)
        ensures
            plain_error(e, "Failed to load challenge: "@ + detail@
                + ". Please run 'anytype auth login' without arguments first."@),
    {
        let msg = concat3(
            "Failed to load challenge: ",
            detail,
            ". Please run 'anytype auth login' without arguments first.",
        );
        LabeledError { msg, label: None }
    }

    /// The error when the API refuses to create a key for the code.
    pub fn key_failure(detail: &str) -> (e: LabeledError)
        ensures
            plain_error(e, "Failed to create API key. Please check your code and try again: "@ + detail@),
    {
        let msg = concat("Failed to create API key. Please check your code and try again: ", detail);
        LabeledError { msg, label: None }
    }

    /// The record of a completed login: authenticated, with the new key
    /// shown in part.
    pub fn authenticated(api_key: &str) -> (r: Record)
        requires
            encode_utf8(api_key@).len() <= usize::MAX,
            maskable(api_key@),
        ensures
            record_view(r) == seq![
                ("status"@, CellView::Text("authenticated"@)),
                ("api_key"@, CellView::Text(masked_key(api_key@))),
            ],
    {
        let mut r = Record::new();
        r.push("status", Cell::Text(owned("authenticated")));
        r.push("api_key", Cell::Text(mask_api_key(api_key)));
        r
    }

    /// The record of a started login: the challenge created, and what to do
    /// next.
    pub fn challenge_created(challenge_id: String) -> (r: Record)
        ensures
            record_view(r) == seq![
                ("status"@, CellView::Text("challenge_created"@)),
                ("challenge_id"@, CellView::Text(challenge_id@)),
                ("message"@, CellView::Text("Challenge created. Run 'anytype auth login <code>' to complete."@)),
            ],
    {
        let mut r = Record::new();
        r.push("status", Cell::Text(owned("challenge_created")));
        r.push("challenge_id", Cell::Text(challenge_id));
        r.push("message", Cell::Text(owned("Challenge created. Run 'anytype auth login <code>' to complete.")));
        r
    }
}

impl AuthDelete {
    /// The name the shell calls the command by.
    pub fn name(&self) -> (r: &'static str)
        ensures
            r@ == "anytype auth delete"@,
    {
        "anytype auth delete"
    }

    /// The description the shell shows for the command.
    pub fn description(&self) -> (r: &'static str)
        ensures
            r@ == "Remove stored authentication credentials"@,
    {
        "Remove stored authentication credentials"
    }

    /// The record of a logout.
    pub fn logged_out() -> (r: Record)
        ensures
            record_view(r) == seq![
                ("status"@, CellView::Text("logged_out"@)),
                ("message"@, CellView::Text("API key removed successfully"@)),
            ],
    {
        let mut r = Record::new();
        r.push("status", Cell::Text(owned("logged_out")));
        r.push("message", Cell::Text(owned("API key removed successfully")));
        r
    }
}

impl AuthStatus {
    /// The name the shell calls the command by.
    pub fn name(&self) -> (r: &'static str)
        ensures
            r@ == "anytype auth status"@,
    {
        "anytype auth status"
    }

    /// The description the shell shows for the command.
    pub fn description(&self) -> (r: &'static str)
        ensures
            r@ == "Check current authentication status"@,
    {
        "Check current authentication status"
    }

    /// The record of the authentication status: not authenticated where no
    /// key is stored; otherwise authenticated, whether the key connected
    /// (with the number of spaces, or the error), and the key in part.
    pub fn report(credentials: Credentials) -> (r: Record)
        requires
            credentials matches Credentials::Stored { api_key, .. } ==> encode_utf8(api_key@).len() <= usize::MAX
                && maskable(api_key@),
        ensures
            match credentials {
                Credentials::Missing => record_view(r) == seq![
                    ("status"@, CellView::Text("not_authenticated"@)),
                    ("connected"@, CellView::Bool(false)),
                ],
                Credentials::Stored { api_key, spaces: Ok(n) } => record_view(r) == seq![
                    ("status"@, CellView::Text("authenticated"@)),
                    ("connected"@, CellView::Bool(true)),
                    ("spaces_count"@, CellView::Int(n as i64)),
                    ("api_key"@, CellView::Text(masked_key(api_key@))),
                ],
                Credentials::Stored { api_key, spaces: Err(e) } => record_view(r) == seq![
                    ("status"@, CellView::Text("authenticated"@)),
                    ("connected"@, CellView::Bool(false)),
                    ("error"@, CellView::Text(e@)),
                    ("api_key"@, CellView::Text(masked_key(api_key@))),
                ],
            },
    {
        let mut r = Record::new();
        match credentials {
            Credentials::Missing => {
                r.push("status", Cell::Text(owned("not_authenticated")));
                r.push("connected", Cell::Bool(false));
            },
            Credentials::Stored { api_key, spaces } => {
                match spaces {
                    Ok(n) => {
                        r.push("status", Cell::Text(owned("authenticated")));
                        r.push("connected", Cell::Bool(true));
                        r.push("spaces_count", Cell::Int(n as i64));
                    },
                    Err(e) => {
                        r.push("status", Cell::Text(owned("authenticated")));
                        r.push("connected", Cell::Bool(false));
                        r.push("error", Cell::Text(e));
                    },
                }
                r.push("api_key", Cell::Text(mask_api_key(api_key.as_str())));
            },
        }
        r
    }
}

/// What removing the stored API key did: there was no key file, the file
/// was removed, or the key file could not be found or removed (with what
/// went wrong).
pub enum KeyRemoval {
    NotThere,
    Removed,
    Failed(String),
}

/// Whether a key file is left after a removal, given whether one was
/// there before: a removal that did not fail leaves none.
pub open spec fn key_left(present: bool, removal: KeyRemoval) -> bool {
    match removal {
        KeyRemoval::Failed(_) => present,
        _ => false,
    }
}

/// The record a log-out answers with.
pub open spec fn logged_out_view() -> Seq<(Seq<char>, CellView)> {
    seq![
        ("status"@, CellView::Text("logged_out"@)),
        ("message"@, CellView::Text("API key removed successfully"@)),
    ]
}

/// What logging out answers once the key file was dealt with: the
/// logged-out record, or the message of the failure.
pub open spec fn logout_outcome(removal: KeyRemoval) -> Result<Seq<(Seq<char>, CellView)>, Seq<char>> {
    match removal {
        KeyRemoval::Failed(d) => Err(super::failure_text("remove API key"@, d@)),
        _ => Ok(logged_out_view()),
    }
}

impl AuthDelete {
    /// What logging out answers once the key file was dealt with: the
    /// logged-out record unless the removal failed, whose error it reports.
    pub fn finish(removal: KeyRemoval) -> (r: Result<Record, LabeledError>)
        ensures
            match r {
                Ok(rec) => logout_outcome(removal) == Ok::<Seq<(Seq<char>, CellView)>, Seq<char>>(record_view(rec)),
                Err(e) => e.label is None && logout_outcome(removal) == Err::<Seq<(Seq<char>, CellView)>, Seq<char>>(e.msg@),
            },
    {
        match removal {
            KeyRemoval::Failed(d) => Err(super::failure("remove API key", d.as_str())),
            _ => Ok(AuthDelete::logged_out()),
        }
    }
}

/// Logging out is safe to repeat: where a log-out succeeds, no key file is
/// left, and the next log-out, finding the key file gone (so not failing to
/// remove it), answers just as the first did and leaves no key file either.
pub proof fn law_logging_out_twice_is_safe(present: bool, first: KeyRemoval, second: KeyRemoval)
    requires
        logout_outcome(first) is Ok,
        !(second is Failed),
    ensures
        !key_left(present, first),
        !key_left(key_left(present, first), second),
        logout_outcome(second) == logout_outcome(first),
{
}

/// A code is accepted exactly when it is four characters long and each of
/// them is one of `0` to `9`: every such code, `0000` and `1024` among them,
/// and no other.
pub proof fn law_codes_are_four_decimal_digits(code: Seq<char>)
    ensures
        is_code(code) <==> (code.len() == 4 && forall|i: int| 0 <= i < 4 ==> '0' <= #[trigger] code[i] && code[i] <= '9'),
{
}

} // verus!
