use vstd::prelude::*;
use vstd::string::StringExecFns;

verus! {

/// Which way a relayed payload travels.
#[derive(Clone, Copy, Debug, PartialEq, Eq, Structural)]
pub enum Direction {
    /// Read from the local byte source and sent to the remote peer.
    Outbound,
    /// Received from the remote peer and written to the local byte sink.
    Inbound,
}

/// The marker that opens an echoed payload: `> ` going out, `< ` coming in.
pub open spec fn marker(dir: Direction) -> Seq<char> {
    match dir {
        Direction::Outbound => seq!['>', ' '],
        Direction::Inbound => seq!['<', ' '],
    }
}

/// The text that `String::from_utf8_lossy` makes of a byte sequence.
pub uninterp spec fn lossy_text(b: Seq<u8>) -> Seq<char>;

/// Relies on `String::from_utf8_lossy`: the text depends on the bytes alone.
#[verifier::external_body]
fn utf8_lossy(b: &[u8]) -> (r: String)
    ensures
        r@ == lossy_text(b@),
{
    String::from_utf8_lossy(b).into_owned()
}

/// The echo line for a payload whose text has already been rendered.
pub fn echo_line_of(dir: Direction, text: &str) -> (r: String)
    ensures
        r@ == marker(dir) + text@,
{
    let head = match dir {
        Direction::Outbound => String::from_str("> "),
        Direction::Inbound => String::from_str("< "),
    };
    proof {
        reveal_strlit("> ");
        reveal_strlit("< ");
    }
    head.concat(text)
}

/// The echo line for a payload: its direction marker, then the payload as
/// text, with invalid byte sequences replaced.
pub fn echo_line(dir: Direction, payload: &[u8]) -> (r: String)
    ensures
        r@ == marker(dir) + lossy_text(payload@),
{
    let text = utf8_lossy(payload);
    echo_line_of(dir, text.as_str())
}

} // verus!
