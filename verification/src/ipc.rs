use vstd::prelude::*;
use vstd::string::*;
use vstd::utf8::{decode_utf8, valid_utf8};

use crate::error::{ErrorType, RuntimeError, RuntimeErrorView};

verus! {

/// The steps of setting up and using the IPC socket that can fail.
#[derive(Debug, Clone, Copy, PartialEq, Eq, Structural)]
pub enum IpcStage {
    /// Creating the socket.
    CreateSocket,
    /// Making the socket's Unix address from its path.
    CreateAddress,
    /// Binding the socket to its address.
    Bind,
    /// Making the listen backlog.
    Backlog,
    /// Listening on the socket.
    Listen,
    /// Connecting to a listening socket.
    Connect,
    /// Accepting an incoming connection.
    Accept,
    /// Decoding a received message as text.
    Decode,
    /// Closing the socket.
    Close,
    /// Removing the socket's file.
    RemoveSocket,
}

/// The message of the error for a failed step.
pub open spec fn ipc_stage_message(stage: IpcStage) -> Seq<char> {
    match stage {
        IpcStage::CreateSocket => "unable to create IPC socket"@,
        IpcStage::CreateAddress => "unable to create unix socket"@,
        IpcStage::Bind => "unable to bind IPC socket"@,
        IpcStage::Backlog => "invalid backlog size"@,
        IpcStage::Listen => "unable to listen IPC socket"@,
        IpcStage::Connect => "unable to connect to unix socket"@,
        IpcStage::Accept => "unable to accept incoming socket"@,
        IpcStage::Decode => "error while converting byte to string {}"@,
        IpcStage::Close => "error closing socket"@,
        IpcStage::RemoveSocket => "error removing socket"@,
    }
}

/// The runtime error for a failed step of the IPC channel.
pub fn ipc_error(stage: IpcStage) -> (e: RuntimeError)
    ensures
        e@ == (RuntimeErrorView { message: ipc_stage_message(stage), error_type: ErrorType::Runtime }),
{
    let message = match stage {
        IpcStage::CreateSocket => "unable to create IPC socket",
        IpcStage::CreateAddress => "unable to create unix socket",
        IpcStage::Bind => "unable to bind IPC socket",
        IpcStage::Backlog => "invalid backlog size",
        IpcStage::Listen => "unable to listen IPC socket",
        IpcStage::Connect => "unable to connect to unix socket",
        IpcStage::Accept => "unable to accept incoming socket",
        IpcStage::Decode => "error while converting byte to string {}",
        IpcStage::Close => "error closing socket",
        IpcStage::RemoveSocket => "error removing socket",
    };
    RuntimeError::runtime(String::from_str(message))
}

/// The runtime error for a failed write, carrying the write error's text.
pub fn write_error(cause: &str) -> (e: RuntimeError)
    ensures
        e@ == (RuntimeErrorView {
            message: "unable to write to unix socket "@ + cause@,
            error_type: ErrorType::Runtime,
        }),
{
    RuntimeError::runtime(String::from_str("unable to write to unix socket ").concat(cause))
}

/// The backlog of connections that a listening channel asks for.
pub const LISTEN_BACKLOG: i32 = 10;

/// The most bytes that one receive reads.
pub const RECEIVE_BUFFER_LEN: usize = 1024;

/// The descriptor a channel talks on: the accepted client's once there is
/// one, else the channel's own socket.
pub fn target_fd(own_fd: i32, client: Option<i32>) -> (fd: i32)
    ensures
        fd == match client {
            Some(c) => c,
            None => own_fd,
        },
{
    match client {
        Some(c) => c,
        None => own_fd,
    }
}

/// The characters with the Unicode `White_Space` property.
pub open spec fn is_white_space(c: char) -> bool {
    let u = c as u32;
    ||| 0x09 <= u <= 0x0d
    ||| u == 0x20
    ||| u == 0x85
    ||| u == 0xa0
    ||| u == 0x1680
    ||| 0x2000 <= u <= 0x200a
    ||| u == 0x2028
    ||| u == 0x2029
    ||| u == 0x202f
    ||| u == 0x205f
    ||| u == 0x3000
}

/// Whether `c` is white space, as `char::is_whitespace` decides.
pub fn char_is_white_space(c: char) -> (r: bool)
    ensures
        r == is_white_space(c),
{
    let u = c as u32;
    (0x09 <= u && u <= 0x0d) || u == 0x20 || u == 0x85 || u == 0xa0 || u == 0x1680 || (0x2000 <= u
        && u <= 0x200a) || u == 0x2028 || u == 0x2029 || u == 0x202f || u == 0x205f || u == 0x3000
}

/// The text without its leading white space.
pub open spec fn trim_start(s: Seq<char>) -> Seq<char>
    decreases s.len(),
{
    if s.len() > 0 && is_white_space(s[0]) {
        trim_start(s.drop_first())
    } else {
        s
    }
}

/// The text without its trailing white space.
pub open spec fn trim_end(s: Seq<char>) -> Seq<char>
    decreases s.len(),
{
    if s.len() > 0 && is_white_space(s.last()) {
        trim_end(s.drop_last())
    } else {
        s
    }
}

/// The text without its leading and trailing white space.
pub open spec fn trim(s: Seq<char>) -> Seq<char> {
    trim_end(trim_start(s))
}

/// `text` without its leading and trailing white space, as `str::trim` gives it.
pub fn trim_white_space(text: &str) -> (r: String)
    ensures
        r@ == trim(text@),
{
    let n = text.unicode_len();
    let ghost s = text@;
    let mut lo: usize = 0;
    assert(s.subrange(0, n as int) == s);
    while lo < n && char_is_white_space(text.get_char(lo))
        invariant
            n == s.len(),
            s == text@,
            lo <= n,
            trim_start(s) == trim_start(s.subrange(lo as int, n as int)),
        decreases n - lo,
    {
        let ghost t = s.subrange(lo as int, n as int);
        assert(t[0] == s[lo as int]);
        assert(t.drop_first() == s.subrange(lo + 1, n as int));
        lo = lo + 1;
    }
    let ghost u = s.subrange(lo as int, n as int);
    assert(trim_start(u) == u) by {
        if u.len() > 0 {
            assert(u[0] == s[lo as int]);
        }
    }
    let mut hi: usize = n;
    while hi > lo && char_is_white_space(text.get_char(hi - 1))
        invariant
            n == s.len(),
            s == text@,
            lo <= hi <= n,
            u == s.subrange(lo as int, n as int),
            trim_end(u) == trim_end(s.subrange(lo as int, hi as int)),
        decreases hi - lo,
    {
        let ghost t = s.subrange(lo as int, hi as int);
        assert(t.last() == s[hi - 1]);
        assert(t.drop_last() == s.subrange(lo as int, hi - 1));
        hi = hi - 1;
    }
    let ghost v = s.subrange(lo as int, hi as int);
    assert(trim_end(v) == v) by {
        if v.len() > 0 {
            assert(v.last() == s[hi - 1]);
        }
    }
    String::from_str(text.substring_char(lo, hi))
}

/// `std::str::from_utf8`, with its error dropped. The contract claims that
/// it succeeds exactly on valid UTF-8 (vstd's `valid_utf8`) and that the text
/// it gives is the bytes' decoding (vstd's `decode_utf8`).
#[verifier::external_body]
fn str_from_utf8<'a>(bytes: &'a [u8]) -> (r: Option<&'a str>)
    ensures
        match r {
            Some(s) => valid_utf8(bytes@) && s@ == decode_utf8(bytes@),
            None => !valid_utf8(bytes@),
        },
{
    std::str::from_utf8(bytes).ok()
}

/// A received message: the text its bytes encode, without leading and
/// trailing white space; an error when the bytes are not UTF-8.
pub fn decode_message(bytes: &[u8]) -> (r: Result<String, RuntimeError>)
    ensures
        valid_utf8(bytes@) ==> (r matches Ok(s) && s@ == trim(decode_utf8(bytes@))),
        !valid_utf8(bytes@) ==> (r matches Err(e) && e@ == (RuntimeErrorView {
            message: ipc_stage_message(IpcStage::Decode),
            error_type: ErrorType::Runtime,
        })),
{
    match str_from_utf8(bytes) {
        Some(text) => Ok(trim_white_space(text)),
        None => Err(ipc_error(IpcStage::Decode)),
    }
}

/// Where the text left by `trim_start` begins: everything before it is
/// white space, and it does not begin with white space.
proof fn lemma_trim_start(s: Seq<char>) -> (lo: int)
    ensures
        0 <= lo <= s.len(),
        trim_start(s) == s.subrange(lo, s.len() as int),
        forall|i: int| 0 <= i < lo ==> is_white_space(#[trigger] s[i]),
        lo < s.len() ==> !is_white_space(s[lo]),
    decreases s.len(),
{
    if s.len() > 0 && is_white_space(s[0]) {
        let rest = s.drop_first();
        let k = lemma_trim_start(rest);
        assert(rest.subrange(k, rest.len() as int) == s.subrange(k + 1, s.len() as int));
        assert forall|i: int| 0 <= i < k + 1 implies is_white_space(#[trigger] s[i]) by {
            if i > 0 {
                assert(s[i] == rest[i - 1]);
            }
        }
        if k + 1 < s.len() {
            assert(s[k + 1] == rest[k]);
        }
        k + 1
    } else {
        assert(s.subrange(0, s.len() as int) == s);
        0
    }
}

/// Where the text left by `trim_end` ends: everything after it is white
/// space, and it does not end with white space.
proof fn lemma_trim_end(s: Seq<char>) -> (hi: int)
    ensures
        0 <= hi <= s.len(),
        trim_end(s) == s.subrange(0, hi),
        forall|i: int| hi <= i < s.len() ==> is_white_space(#[trigger] s[i]),
        hi > 0 ==> !is_white_space(s[hi - 1]),
    decreases s.len(),
{
    if s.len() > 0 && is_white_space(s.last()) {
        let init = s.drop_last();
        let k = lemma_trim_end(init);
        assert(init.subrange(0, k) == s.subrange(0, k));
        assert forall|i: int| k <= i < s.len() implies is_white_space(#[trigger] s[i]) by {
            if i < s.len() - 1 {
                assert(s[i] == init[i]);
            }
        }
        if k > 0 {
            assert(s[k - 1] == init[k - 1]);
        }
        k
    } else {
        assert(s.subrange(0, s.len() as int) == s);
        s.len() as int
    }
}

/// Trimming removes exactly the white space at both ends: what is left is a
/// stretch of the text that neither starts nor ends with white space, and
/// everything before and after it is white space.
pub proof fn law_trim_removes_outer_white_space(s: Seq<char>)
    ensures
        exists|lo: int, hi: int|
            {
                &&& 0 <= lo <= hi <= s.len()
                &&& trim(s) == s.subrange(lo, hi)
                &&& forall|i: int| 0 <= i < lo ==> is_white_space(#[trigger] s[i])
                &&& forall|i: int| hi <= i < s.len() ==> is_white_space(#[trigger] s[i])
                &&& lo < hi ==> !is_white_space(s[lo]) && !is_white_space(s[hi - 1])
            },
{
    let lo = lemma_trim_start(s);
    let u = s.subrange(lo, s.len() as int);
    let k = lemma_trim_end(u);
    let hi = lo + k;
    assert(u.subrange(0, k) == s.subrange(lo, hi));
    assert forall|i: int| hi <= i < s.len() implies is_white_space(#[trigger] s[i]) by {
        assert(s[i] == u[i - lo]);
    }
    if lo < hi {
        assert(s[lo] == u[0]);
        assert(s[hi - 1] == u[k - 1]);
        if k < u.len() {
            assert(u[0] == s[lo]);
        }
    }
    assert(0 <= lo <= hi <= s.len() && trim(s) == s.subrange(lo, hi));
}

/// Trimming twice gives what trimming once gives.
pub proof fn law_trim_idempotent(s: Seq<char>)
    ensures
        trim(trim(s)) == trim(s),
{
    let t = trim(s);
    let lo = lemma_trim_start(s);
    let u = s.subrange(lo, s.len() as int);
    let hi = lemma_trim_end(u);
    let lo2 = lemma_trim_start(t);
    if lo2 > 0 {
        assert(t[0] == u[0]);
    }
    assert(lo2 == 0);
    assert(t.subrange(0, t.len() as int) == t);
    let v = trim_start(t);
    let hi2 = lemma_trim_end(v);
    if hi2 < v.len() {
        assert(v[v.len() - 1] == u[hi - 1]);
    }
    assert(v.subrange(0, v.len() as int) == v);
}

} // verus!
