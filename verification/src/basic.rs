//! A minimal response builder: a fixed status line and a flat header
//! block, assembled by plain concatenation. It serves the shell's
//! smallest answers, where the full builder would be ceremony.

use vstd::prelude::*;

use crate::mime::{mime_lookup, mime_of};

verus! {

/// The four statuses this builder can open with.
pub enum Status {
    Success,
    Not,
    Error,
    Moved,
}

pub ghost struct BasicView {
    pub line: Seq<u8>,
    pub header: Seq<u8>,
}

/// A response under construction: the status line and the header block
/// collected so far.
pub struct Response {
    line: Vec<u8>,
    header: Vec<u8>,
}

impl View for Response {
    type V = BasicView;

    closed spec fn view(&self) -> BasicView {
        BasicView { line: self.line@, header: self.header@ }
    }
}

/// The status line each `Status` opens with.
pub open spec fn status_line(status: Status) -> Seq<u8> {
    match status {
        Status::Success => seq![72u8, 84u8, 84u8, 80u8, 47u8, 49u8, 46u8, 49u8, 32u8, 50u8, 48u8, 48u8, 32u8, 79u8, 75u8, 13u8, 10u8],
        Status::Not => seq![72u8, 84u8, 84u8, 80u8, 47u8, 49u8, 46u8, 49u8, 32u8, 52u8, 48u8, 52u8, 32u8, 78u8, 111u8, 116u8, 32u8, 70u8, 111u8, 117u8, 110u8, 100u8, 13u8, 10u8],
        Status::Error => seq![72u8, 84u8, 84u8, 80u8, 47u8, 49u8, 46u8, 49u8, 32u8, 53u8, 48u8, 48u8, 13u8, 10u8],
        Status::Moved => seq![72u8, 84u8, 84u8, 80u8, 47u8, 49u8, 46u8, 49u8, 32u8, 51u8, 48u8, 49u8, 13u8, 10u8],
    }
}

impl Response {
    /// Opens a response with its status line and the server's name.
    pub fn new(status: Status) -> (r: Response)
        ensures
            r@.line == status_line(status),
            r@.header == seq![83u8, 101u8, 114u8, 118u8, 101u8, 114u8, 58u8, 32u8, 115u8, 102u8, 115u8, 13u8, 10u8],
    {
        let line: Vec<u8> = match status {
            Status::Success => vec![72, 84, 84, 80, 47, 49, 46, 49, 32, 50, 48, 48, 32, 79, 75, 13, 10],
            Status::Not => vec![72, 84, 84, 80, 47, 49, 46, 49, 32, 52, 48, 52, 32, 78, 111, 116, 32, 70, 111, 117, 110, 100, 13, 10],
            Status::Error => vec![72, 84, 84, 80, 47, 49, 46, 49, 32, 53, 48, 48, 13, 10],
            Status::Moved => vec![72, 84, 84, 80, 47, 49, 46, 49, 32, 51, 48, 49, 13, 10],
        };
        let header: Vec<u8> = vec![83, 101, 114, 118, 101, 114, 58, 32, 115, 102, 115, 13, 10];
        proof {
            assert(line@ =~= status_line(status));
            assert(header@ =~= seq![83u8, 101u8, 114u8, 118u8, 101u8, 114u8, 58u8, 32u8, 115u8, 102u8, 115u8, 13u8, 10u8]);
        }
        Response { line, header }
    }

    /// Appends one `key: value` line to the header block.
    pub fn header(self, key: &[u8], value: &[u8]) -> (r: Response)
        ensures
            r@.line == self@.line,
            r@.header == self@.header + key@ + seq![58u8, 32u8] + value@ + seq![13u8, 10u8],
    {
        let mut r = self;
        let ghost before = r@.header;
        crate::bytes_util::push_bytes(&mut r.header, key);
        r.header.push(58);
        r.header.push(32);
        crate::bytes_util::push_bytes(&mut r.header, value);
        r.header.push(13);
        r.header.push(10);
        proof {
            assert(r@.header =~= before + key@ + seq![58u8, 32u8] + value@ + seq![13u8, 10u8]);
        }
        r
    }

    /// Appends a `Content-Type` line from the file extension, via the
    /// MIME table.
    pub fn content_type(self, ext: &[u8]) -> (r: Response)
        ensures
            r@.line == self@.line,
            r@.header == self@.header + seq![67u8, 111u8, 110u8, 116u8, 101u8, 110u8, 116u8, 45u8, 84u8, 121u8, 112u8, 101u8] + seq![58u8, 32u8] + mime_of(ext@)
                + seq![13u8, 10u8],
    {
        let key: Vec<u8> = vec![67, 111, 110, 116, 101, 110, 116, 45, 84, 121, 112, 101];
        let value = mime_lookup(ext);
        proof {
            assert(key@ =~= seq![67u8, 111u8, 110u8, 116u8, 101u8, 110u8, 116u8, 45u8, 84u8, 121u8, 112u8, 101u8]);
        }
        self.header(key.as_slice(), value.as_slice())
    }

    /// Closes the head and appends the body: status line, headers, the
    /// blank line, the content.
    pub fn body(self, content: &[u8]) -> (r: Vec<u8>)
        ensures
            r@ == self@.line + self@.header + seq![13u8, 10u8] + content@,
    {
        let ghost line = self@.line;
        let ghost hdr = self@.header;
        let header = self.header;
        let mut r = self.line;
        crate::bytes_util::push_bytes(&mut r, header.as_slice());
        r.push(13);
        r.push(10);
        crate::bytes_util::push_bytes(&mut r, content);
        proof {
            assert(r@ =~= line + hdr + seq![13u8, 10u8] + content@);
        }
        r
    }
}

} // verus!
