//! The bounded buffer in which a log line is built before it goes to the
//! kernel's console.

use vstd::prelude::*;
use vstd::slice::slice_subrange;
use vstd::string::StringSliceAdditionalSpecFns;

verus! {

/// The longest line the kernel's log takes, in bytes.
pub const LOG_LINE_MAX: usize = 1024 - 32;

/// `core::fmt::Error`, the error of the formatting machinery of the standard
/// library. Nothing is claimed of it: no writer of this module ever makes one.
#[verifier::external_type_specification]
#[verifier::external_body]
pub struct ExFmtError(core::fmt::Error);

/// The kernel's console, the sink of every log line.
pub struct KernelConsole;

/// What a writer holds after `bytes` were offered to one that held `line`:
/// as much of `bytes` as still fits, appended.
pub open spec fn appended(line: Seq<u8>, bytes: Seq<u8>) -> Seq<u8> {
    let room = if line.len() <= LOG_LINE_MAX {
        LOG_LINE_MAX - line.len()
    } else {
        0
    };
    if bytes.len() <= room {
        line + bytes
    } else {
        line + bytes.take(room)
    }
}

/// A log line under construction: at most [`LOG_LINE_MAX`] bytes. What does
/// not fit is cut off, silently.
pub struct LogLineWriter {
    data: [u8; LOG_LINE_MAX],
    pos: usize,
}

impl View for LogLineWriter {
    type V = Seq<u8>;

    /// The bytes written so far.
    closed spec fn view(&self) -> Seq<u8> {
        self.data@.take(self.pos as int)
    }
}

/// A line never grows past [`LOG_LINE_MAX`] bytes, keeps what it held, and
/// takes all of `bytes` if there is room for all of them.
pub proof fn lemma_appended_bounds(line: Seq<u8>, bytes: Seq<u8>)
    requires
        line.len() <= LOG_LINE_MAX,
    ensures
        appended(line, bytes).len() <= LOG_LINE_MAX,
        appended(line, bytes).len() == (if line.len() + bytes.len() <= LOG_LINE_MAX {
            line.len() + bytes.len()
        } else {
            LOG_LINE_MAX as nat
        }),
        line.is_prefix_of(appended(line, bytes)),
        appended(line, bytes).is_prefix_of(line + bytes),
{
}

/// Writing `first` and then `second` gives the line that writing both at once
/// gives: text may be handed over in pieces.
pub proof fn lemma_appended_in_pieces(line: Seq<u8>, first: Seq<u8>, second: Seq<u8>)
    ensures
        appended(appended(line, first), second) == appended(line, first + second),
{
    let whole = first + second;
    if line.len() > LOG_LINE_MAX {
        assert(line + first.take(0) =~= line);
        assert(line + second.take(0) =~= line);
        assert(line + whole.take(0) =~= line);
    } else {
        let room = LOG_LINE_MAX - line.len();
        if first.len() <= room {
            let rest = room - first.len();
            if second.len() <= rest {
                assert((line + first) + second =~= line + whole);
            } else {
                assert((line + first) + second.take(rest) =~= line + whole.take(room));
            }
        } else {
            assert((line + first.take(room)) + second.take(0) =~= line + whole.take(room));
        }
    }
}

impl LogLineWriter {
    #[verifier::type_invariant]
    spec fn within_capacity(&self) -> bool {
        self.pos <= LOG_LINE_MAX
    }

    /// An empty line.
    pub fn new() -> (writer: LogLineWriter)
        ensures
            writer@ == Seq::<u8>::empty(),
    {
        LogLineWriter { data: [0u8; LOG_LINE_MAX], pos: 0 }
    }

    /// The bytes written so far.
    pub fn as_bytes(&self) -> (bytes: &[u8])
        ensures
            bytes@ == self@,
            bytes@.len() <= LOG_LINE_MAX,
    {
        proof {
            use_type_invariant(self);
        }
        slice_subrange(self.data.as_slice(), 0, self.pos)
    }
}

impl core::fmt::Write for LogLineWriter {
    /// Appends as much of `s` as still fits and drops the rest. Never fails.
    fn write_str(&mut self, s: &str) -> (res: Result<(), core::fmt::Error>)
        ensures
            res is Ok,
            final(self)@ == appended(old(self)@, s.spec_bytes()),
    {
        proof {
            use_type_invariant(&*self);
        }
        let bytes = s.as_bytes();
        let room: usize = LOG_LINE_MAX - self.pos;
        let copy_len: usize = if room >= bytes.len() {
            bytes.len()
        } else {
            room
        };
        let start: usize = self.pos;
        let mut i: usize = 0;
        while i < copy_len
            invariant
                i <= copy_len <= bytes@.len(),
                start + copy_len <= LOG_LINE_MAX,
                self.pos == start,
                self.data@.take(start as int) == old(self).data@.take(start as int),
                forall|k: int| 0 <= k < i ==> self.data@[start + k] == bytes@[k],
            decreases copy_len - i,
        {
            self.data[start + i] = bytes[i];
            i += 1;
        }
        self.pos = start + copy_len;
        proof {
            assert(self@ =~= appended(old(self)@, s.spec_bytes()));
        }
        Ok(())
    }
}

} // verus!
