use vstd::arithmetic::div_mod::{lemma_div_is_strictly_smaller, lemma_mod_bound};
use vstd::prelude::*;
use vstd::string::StringExecFns;

verus! {

/// Maximum number of payload bytes a message may carry.
pub const CAPACITY: usize = 1024;

/// Number of peer sessions the relay serves; the valid origin ids are
/// 0 .. PEER_COUNT.
pub const PEER_COUNT: i32 = 2;

/// One unit of communication flowing through the bus: the semantically
/// valid payload bytes, tagged with the id of the session that produced it.
#[derive(Clone, Debug, PartialEq, Eq)]
pub struct Message {
    pub payload: Vec<u8>,
    pub origin: i32,
}

/// The mathematical content of a message: its byte sequence and origin id.
pub ghost struct MessageView {
    pub payload: Seq<u8>,
    pub origin: int,
}

impl View for Message {
    type V = MessageView;

    open spec fn view(&self) -> MessageView {
        MessageView { payload: self.payload@, origin: self.origin as int }
    }
}

/// An origin id names one of the peer sessions.
pub open spec fn valid_origin(origin: int) -> bool {
    0 <= origin < PEER_COUNT as int
}

impl MessageView {
    /// The invariant every message observed on the bus satisfies:
    /// a bounded payload and a known origin.
    pub open spec fn valid(self) -> bool {
        self.payload.len() <= CAPACITY as int && valid_origin(self.origin)
    }
}

/// The decimal digit character for a value in 0 .. 10.
pub open spec fn spec_digit(d: int) -> char {
    if d == 0 {
        '0'
    } else if d == 1 {
        '1'
    } else if d == 2 {
        '2'
    } else if d == 3 {
        '3'
    } else if d == 4 {
        '4'
    } else if d == 5 {
        '5'
    } else if d == 6 {
        '6'
    } else if d == 7 {
        '7'
    } else if d == 8 {
        '8'
    } else {
        '9'
    }
}

/// The decimal digits of a nonnegative value, most significant first.
pub open spec fn spec_dec(n: nat) -> Seq<char>
    decreases n,
{
    if n < 10 {
        seq![spec_digit(n as int)]
    } else {
        spec_dec(n / 10) + seq![spec_digit((n % 10) as int)]
    }
}

/// The decimal text of an integer: a leading minus sign when negative,
/// then the digits of its magnitude.
pub open spec fn spec_int_str(v: int) -> Seq<char> {
    if v < 0 {
        seq!['-'] + spec_dec((-v) as nat)
    } else {
        spec_dec(v as nat)
    }
}

/// The one-character text of a decimal digit.
fn digit_str(d: u32) -> (r: &'static str)
    requires
        d < 10,
    ensures
        r@ == seq![spec_digit(d as int)],
{
    let r: &'static str = if d == 0 {
        "0"
    } else if d == 1 {
        "1"
    } else if d == 2 {
        "2"
    } else if d == 3 {
        "3"
    } else if d == 4 {
        "4"
    } else if d == 5 {
        "5"
    } else if d == 6 {
        "6"
    } else if d == 7 {
        "7"
    } else if d == 8 {
        "8"
    } else {
        "9"
    };
    proof {
        reveal_strlit("0");
        reveal_strlit("1");
        reveal_strlit("2");
        reveal_strlit("3");
        reveal_strlit("4");
        reveal_strlit("5");
        reveal_strlit("6");
        reveal_strlit("7");
        reveal_strlit("8");
        reveal_strlit("9");
        assert(r@ =~= seq![spec_digit(d as int)]);
    }
    r
}

/// The decimal text of a nonnegative value.
fn dec_string(n: u32) -> (r: String)
    ensures
        r@ == spec_dec(n as nat),
    decreases n,
{
    if n < 10 {
        let mut s = String::new();
        s.append(digit_str(n));
        proof {
            assert(s@ =~= spec_dec(n as nat));
        }
        s
    } else {
        proof {
            lemma_div_is_strictly_smaller(n as int, 10);
            lemma_mod_bound(n as int, 10);
        }
        let mut s = dec_string(n / 10);
        s.append(digit_str(n % 10));
        s
    }
}

impl Message {
    pub open spec fn valid(&self) -> bool {
        self@.valid()
    }

    /// The origin id as decimal text.
    pub fn get_sender(&self) -> (r: String)
        ensures
            r@ == spec_int_str(self.origin as int),
    {
        if self.origin >= 0 {
            dec_string(self.origin as u32)
        } else {
            let mag = (-(self.origin as i64)) as u32;
            let mut s = String::new();
            s.append("-");
            proof {
                reveal_strlit("-");
                assert(s@ =~= seq!['-']);
            }
            let d = dec_string(mag);
            s.append(d.as_str());
            s
        }
    }

    pub fn new(payload: Vec<u8>, origin: i32) -> (m: Message)
        requires
            payload@.len() <= CAPACITY as int,
            valid_origin(origin as int),
        ensures
            m@ == (MessageView { payload: payload@, origin: origin as int }),
            m.valid(),
    {
        Message { payload, origin }
    }
}

/// The sentinel payload: the bytes of the text "quit".
pub open spec fn sentinel_bytes() -> Seq<u8> {
    seq![113u8, 117u8, 105u8, 116u8]
}

/// A payload signals termination exactly when it equals the sentinel.
pub open spec fn is_sentinel(payload: Seq<u8>) -> bool {
    payload == sentinel_bytes()
}

/// Decides whether a payload is the termination sentinel.
pub fn payload_is_sentinel(payload: &Vec<u8>) -> (r: bool)
    ensures
        r == is_sentinel(payload@),
{
    if payload.len() != 4 {
        assert(payload@ != sentinel_bytes()) by {
            assert(sentinel_bytes().len() == 4);
        };
        false
    } else {
        let r = payload[0] == 113 && payload[1] == 117 && payload[2] == 105
            && payload[3] == 116;
        proof {
            if r {
                assert(payload@ =~= sentinel_bytes());
            } else {
                assert(payload@ != sentinel_bytes()) by {
                    if payload@ == sentinel_bytes() {
                        assert(payload@[0] == 113);
                        assert(payload@[1] == 117);
                        assert(payload@[2] == 105);
                        assert(payload@[3] == 116);
                    }
                };
            }
        }
        r
    }
}

} // verus!
