//! The wire format of the stream: one long-lived response whose body is a
//! sequence of parts, each part replacing the previous image in the viewer.
//! Every part declares its payload's exact byte length; a consumer that is
//! handed even one wrong length desynchronizes, so the framing here is
//! byte-exact by construction.

use vstd::prelude::*;
use vstd::string::StringExecFns;
use vstd::string::StringSliceAdditionalSpecFns;

use crate::frame::EncodedFrame;

verus! {

/// The ASCII decimal representation of a number, most significant digit
/// first, with no sign and no leading zeroes (the number 0 is "0").
pub open spec fn decimal_rep(n: nat) -> Seq<u8>
    decreases n,
{
    if n < 10 {
        seq![(48 + n) as u8]
    } else {
        decimal_rep(n / 10).push((48 + n % 10) as u8)
    }
}

/// The header of one body part: boundary marker, content type, and the
/// exact byte length the payload will have.
pub open spec fn part_header_bytes(len: nat) -> Seq<u8> {
    "--frame\r\nContent-Type: image/jpeg\r\nContent-Length: ".spec_bytes() + decimal_rep(len)
        + "\r\n\r\n".spec_bytes()
}

/// One complete body part: the header declaring the payload's length, the
/// payload itself, and the trailing delimiter.
pub open spec fn frame_part_bytes(payload: Seq<u8>) -> Seq<u8> {
    part_header_bytes(payload.len()) + payload + "\r\n".spec_bytes()
}

/// Append a slice's bytes to a buffer.
fn push_slice(out: &mut Vec<u8>, s: &[u8])
    ensures
        final(out)@ == old(out)@ + s@,
{
    let mut i: usize = 0;
    while i < s.len()
        invariant
            i <= s@.len(),
            out@ == old(out)@ + s@.subrange(0, i as int),
        decreases s@.len() - i,
    {
        out.push(s[i]);
        i = i + 1;
        proof {
            assert(out@ =~= old(out)@ + s@.subrange(0, i as int));
        }
    }
    proof {
        assert(out@ =~= old(out)@ + s@);
    }
}

/// Append the decimal digits of `n` to a buffer.
fn push_decimal(out: &mut Vec<u8>, n: u64)
    ensures
        final(out)@ == old(out)@ + decimal_rep(n as nat),
    decreases n,
{
    if n >= 10 {
        push_decimal(out, n / 10);
    }
    out.push(48 + (n % 10) as u8);
    proof {
        assert(out@ =~= old(out)@ + decimal_rep(n as nat));
    }
}

/// The response header that opens the stream, announcing the multipart
/// body and its boundary token. Written once per connection, before any
/// frame.
pub fn response_header() -> (r: String)
    ensures
        r@ == "HTTP/1.1 200 OK\r\nContent-Type: multipart/x-mixed-replace; boundary=frame\r\n\r\n"@,
{
    String::from_str(
        "HTTP/1.1 200 OK\r\nContent-Type: multipart/x-mixed-replace; boundary=frame\r\n\r\n",
    )
}

/// Frame one encoded image as a body part, ready to be written to the
/// socket in one piece: the declared `Content-Length` is exactly the
/// number of payload bytes between the header and the trailing delimiter.
pub fn frame_part(f: &EncodedFrame) -> (r: Vec<u8>)
    ensures
        r@ == frame_part_bytes(f.bytes@),
{
    let mut r: Vec<u8> = Vec::new();
    push_slice(&mut r, "--frame\r\nContent-Type: image/jpeg\r\nContent-Length: ".as_bytes());
    push_decimal(&mut r, f.bytes.len() as u64);
    push_slice(&mut r, "\r\n\r\n".as_bytes());
    push_slice(&mut r, f.bytes.as_slice());
    push_slice(&mut r, "\r\n".as_bytes());
    proof {
        assert(r@ =~= frame_part_bytes(f.bytes@));
    }
    r
}

} // verus!
