//! The message published once per poll cycle.
use vstd::prelude::*;
use vstd::string::*;
use vstd::utf8::encode_utf8;

verus! {

/// One snapshot of the controller's readings.
#[derive(Debug)]
pub struct SolboxMessage {
    sensor1: i16,
    sensor2: i16,
    sensor3: i16,
    relay1: i16,
}

/// The readings of a message: collector, boiler bottom and boiler top
/// temperatures, and the pump relay.
pub struct MessageView {
    pub sensor1: i16,
    pub sensor2: i16,
    pub sensor3: i16,
    pub relay1: i16,
}

impl View for SolboxMessage {
    type V = MessageView;

    closed spec fn view(&self) -> MessageView {
        MessageView {
            sensor1: self.sensor1,
            sensor2: self.sensor2,
            sensor3: self.sensor3,
            relay1: self.relay1,
        }
    }
}

pub open spec fn digit_char(d: int) -> char {
    if d == 0 {
        '0'
    } else if d == 1 {
        '1'
    } else if d == 2 {
        '2'
    } else if d == 3 {
        '3'
    } else if d == 4 {
        '4'
    } else if d == 5 {
        '5'
    } else if d == 6 {
        '6'
    } else if d == 7 {
        '7'
    } else if d == 8 {
        '8'
    } else {
        '9'
    }
}

/// The decimal text of a natural number.
pub open spec fn nat_text(n: nat) -> Seq<char>
    decreases n,
{
    if n < 10 {
        seq![digit_char(n as int)]
    } else {
        nat_text(n / 10).push(digit_char((n % 10) as int))
    }
}

/// The decimal text of an integer, with `-` before a negative one.
pub open spec fn int_text(i: int) -> Seq<char> {
    if i < 0 {
        seq!['-'] + nat_text((-i) as nat)
    } else {
        nat_text(i as nat)
    }
}

/// The JSON text of a message stamped with `time`, keys in sorted order.
pub open spec fn payload(m: MessageView, time: Seq<char>) -> Seq<char> {
    "{\"pump\":"@ + int_text(m.relay1 as int) + ",\"temperature-boiler-bottom\":"@ + int_text(
        m.sensor2 as int,
    ) + ",\"temperature-boiler-top\":"@ + int_text(m.sensor3 as int)
        + ",\"temperature-collector\":"@ + int_text(m.sensor1 as int) + ",\"time\":\""@ + time
        + "\"}"@
}

fn digit_str(d: u32) -> (r: &'static str)
    requires
        d < 10,
    ensures
        r@ == seq![digit_char(d as int)],
{
    match d {
        0 => {
            proof {
                reveal_strlit("0");
            }
            "0"
        },
        1 => {
            proof {
                reveal_strlit("1");
            }
            "1"
        },
        2 => {
            proof {
                reveal_strlit("2");
            }
            "2"
        },
        3 => {
            proof {
                reveal_strlit("3");
            }
            "3"
        },
        4 => {
            proof {
                reveal_strlit("4");
            }
            "4"
        },
        5 => {
            proof {
                reveal_strlit("5");
            }
            "5"
        },
        6 => {
            proof {
                reveal_strlit("6");
            }
            "6"
        },
        7 => {
            proof {
                reveal_strlit("7");
            }
            "7"
        },
        8 => {
            proof {
                reveal_strlit("8");
            }
            "8"
        },
        9 => {
            proof {
                reveal_strlit("9");
            }
            "9"
        },
        _ => {
            proof {
                reveal_strlit("9");
            }
            "9"
        },
    }
}

fn nat_to_text(n: u32) -> (r: String)
    ensures
        r@ == nat_text(n as nat),
    decreases n,
{
    if n < 10 {
        String::from_str(digit_str(n))
    } else {
        let head = nat_to_text(n / 10);
        let r = head.concat(digit_str(n % 10));
        assert(r@ =~= nat_text(n as nat));
        r
    }
}

fn int_to_text(v: i16) -> (r: String)
    ensures
        r@ == int_text(v as int),
{
    if v < 0 {
        let magnitude: u32 = (-(v as i32)) as u32;
        proof {
            reveal_strlit("-");
        }
        String::from_str("-").concat(nat_to_text(magnitude).as_str())
    } else {
        nat_to_text(v as u32)
    }
}

/// The characters that an RFC 3339 timestamp in UTC is written with.
pub open spec fn is_timestamp_char(c: char) -> bool {
    ('0' <= c && c <= '9') || c == '-' || c == ':' || c == 'T' || c == '.' || c == '+' || c == 'Z'
}

pub open spec fn is_timestamp_text(t: Seq<char>) -> bool {
    forall|i: int| 0 <= i < t.len() ==> is_timestamp_char(#[trigger] t[i])
}

/// Relies on std's SystemTime::now and Duration, and on chrono's
/// DateTime::from_timestamp and DateTime::to_rfc3339: the current UTC time as
/// RFC 3339 text, made of digits and `-:T.+`. `None` where the clock reads
/// before 1970 or beyond what chrono represents. Nothing else is stated, as
/// it depends on the clock.
#[verifier::external_body]
fn now_rfc3339() -> (r: Option<String>)
    ensures
        r matches Some(t) ==> is_timestamp_text(t@),
{
    match std::time::SystemTime::now().duration_since(std::time::UNIX_EPOCH) {
        Ok(d) => match chrono::DateTime::from_timestamp(d.as_secs() as i64, d.subsec_nanos()) {
            Some(t) => Some(t.to_rfc3339()),
            None => None,
        },
        Err(_) => None,
    }
}

impl SolboxMessage {
    pub fn new(sensor1: i16, sensor2: i16, sensor3: i16, relay1: i16) -> (r: SolboxMessage)
        ensures
            r@ == (MessageView { sensor1, sensor2, sensor3, relay1 }),
    {
        SolboxMessage { sensor1, sensor2, sensor3, relay1 }
    }

    /// The JSON text of the message stamped with `time`, an RFC 3339
    /// timestamp, which is written as it is.
    pub fn to_json_at(&self, time: &str) -> (r: String)
        ensures
            r@ == payload(self@, time@),
    {
        String::from_str("{\"pump\":").concat(int_to_text(self.relay1).as_str()).concat(
            ",\"temperature-boiler-bottom\":",
        ).concat(int_to_text(self.sensor2).as_str()).concat(",\"temperature-boiler-top\":").concat(
            int_to_text(self.sensor3).as_str(),
        ).concat(",\"temperature-collector\":").concat(int_to_text(self.sensor1).as_str()).concat(
            ",\"time\":\"",
        ).concat(time).concat("\"}")
    }

    /// The UTF-8 bytes of the message stamped with the current time; `None`
    /// where the system clock cannot give it.
    pub fn to_bytes(&self) -> (r: Option<Vec<u8>>)
        ensures
            r matches Some(b) ==> exists|time: Seq<char>|
                is_timestamp_text(time) && b@ == encode_utf8(#[trigger] payload(self@, time)),
    {
        match now_rfc3339() {
            Some(time) => {
                let text = self.to_json_at(time.as_str());
                let b = text.as_str().as_bytes_vec();
                assert(is_timestamp_text(time@) && b@ == encode_utf8(payload(self@, time@)));
                Some(b)
            },
            None => None,
        }
    }
}

} // verus!
