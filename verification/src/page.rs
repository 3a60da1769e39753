//! The page that starts a session.
//!
//! A browser that asks for the page gets a fixed document in which one token
//! stands for the uuid of the session. Whoever serves the page mints a fresh
//! uuid for every request; the two sockets of the page then present it in
//! their welcome.
use vstd::prelude::*;
use vstd::string::StringExecFns;
use crate::ident::has_prefix;
use crate::text::{after, decimal, decimal_string, starts_with};

verus! {

/// `s` with `with` in place of `token`, wherever `token` stands, going from
/// left to right.
pub open spec fn replaced(s: Seq<char>, token: Seq<char>, with: Seq<char>) -> Seq<char>
    decreases s.len(),
{
    if token.len() == 0 || s.len() < token.len() {
        s
    } else if has_prefix(s, token) {
        with + replaced(s.skip(token.len() as int), token, with)
    } else {
        seq![s[0]] + replaced(s.skip(1), token, with)
    }
}

/// `s` between double quotes.
pub open spec fn quoted(s: Seq<char>) -> Seq<char> {
    "\""@ + s + "\""@
}

/// The page for the session `uuid`: the document `template` with the uuid,
/// in quotes, in place of the token `#uuid`.
pub open spec fn spec_page(template: Seq<char>, uuid: Seq<char>) -> Seq<char> {
    replaced(template, "#uuid"@, quoted(uuid))
}

/// The answer to a request for the page: a status line, the length of the
/// page in bytes, an empty line, and the page.
pub open spec fn spec_response(contents: Seq<char>, bytes: nat) -> Seq<char> {
    "HTTP/1.1 200 OK\r\nContent-Length: "@ + decimal(bytes) + "\r\n\r\n"@ + contents
}

/// The page for the session `uuid`.
pub fn page(template: &str, uuid: &str) -> (contents: String)
    ensures
        contents@ == spec_page(template@, uuid@),
{
    proof {
        reveal_strlit("#uuid");
    }
    let with = String::from_str("\"").concat(uuid).concat("\"");
    let ghost token = "#uuid"@;
    let n = template.unicode_len();
    let mut out = String::new();
    let mut i: usize = 0;
    assert(template@.skip(0) =~= template@);
    while i < n
        invariant
            i <= n,
            n == template@.len(),
            token == "#uuid"@,
            token.len() == 5,
            with@ == quoted(uuid@),
            out@ + replaced(template@.skip(i as int), token, with@) == spec_page(
                template@,
                uuid@,
            ),
        decreases n - i,
    {
        let rest = after(template, i);
        let ghost before = out@;
        if starts_with(rest, "#uuid") {
            out.append(with.as_str());
            assert(rest@.skip(5) =~= template@.skip(i + 5));
            assert(out@ + replaced(template@.skip(i + 5), token, with@) =~= before + replaced(
                rest@,
                token,
                with@,
            ));
            i += 5;
        } else {
            out.append(template.substring_char(i, i + 1));
            assert(rest@.skip(1) =~= template@.skip(i + 1));
            assert(template@.subrange(i as int, i + 1) =~= seq![rest@[0]]);
            assert(replaced(rest@, token, with@) =~= seq![rest@[0]] + replaced(
                rest@.skip(1),
                token,
                with@,
            )) by {
                if rest@.len() < token.len() {
                    assert(seq![rest@[0]] + rest@.skip(1) =~= rest@);
                }
            }
            assert(out@ + replaced(template@.skip(i + 1), token, with@) =~= before + replaced(
                rest@,
                token,
                with@,
            ));
            i += 1;
        }
    }
    assert(template@.skip(n as int) =~= Seq::<char>::empty());
    assert(out@ + Seq::<char>::empty() =~= out@);
    out
}

/// The answer to a request for the page `contents`. The length it states is
/// the number of bytes of the page.
pub fn response(contents: &str) -> (answer: String)
    ensures
        answer@ == spec_response(contents@, contents.len() as nat),
{
    let length = decimal_string(contents.len());
    String::from_str("HTTP/1.1 200 OK\r\nContent-Length: ").concat(length.as_str()).concat(
        "\r\n\r\n",
    ).concat(contents)
}

} // verus!
