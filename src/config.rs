use vstd::prelude::*;
use vstd::string::StringSliceAdditionalSpecFns;

verus! {

/// Lower-cases an ASCII letter and leaves every other byte alone.
pub open spec fn ascii_lower(b: u8) -> u8 {
    if 65 <= b && b <= 90 {
        (b + 32) as u8
    } else {
        b
    }
}

/// Two byte strings are equal up to ASCII case.
pub open spec fn eq_ignore_ascii_case(a: Seq<u8>, b: Seq<u8>) -> bool {
    &&& a.len() == b.len()
    &&& forall|i: int| 0 <= i < a.len() ==> ascii_lower(a[i]) == ascii_lower(b[i])
}

pub open spec fn word_cubic() -> Seq<u8> {
    seq![99u8, 117, 98, 105, 99]
}

pub open spec fn word_new_reno() -> Seq<u8> {
    seq![110u8, 101, 119, 95, 114, 101, 110, 111]
}

pub open spec fn word_newreno() -> Seq<u8> {
    seq![110u8, 101, 119, 114, 101, 110, 111]
}

pub open spec fn word_bbr() -> Seq<u8> {
    seq![98u8, 98, 114]
}

pub open spec fn word_native() -> Seq<u8> {
    seq![110u8, 97, 116, 105, 118, 101]
}

pub open spec fn word_quic() -> Seq<u8> {
    seq![113u8, 117, 105, 99]
}

/// How UDP is carried over the transport.
#[derive(Clone, Copy, Debug, PartialEq, Eq, Structural)]
pub enum UdpRelayMode {
    Native,
    Quic,
}

/// The congestion controller the transport runs.
#[derive(Clone, Copy, Debug, PartialEq, Eq, Structural)]
pub enum CongestionControl {
    Cubic,
    NewReno,
    Bbr,
}

/// The congestion controller a configuration string names, if any.
pub open spec fn congestion_control_named(s: Seq<u8>) -> Option<CongestionControl> {
    if eq_ignore_ascii_case(s, word_cubic()) {
        Some(CongestionControl::Cubic)
    } else if eq_ignore_ascii_case(s, word_new_reno()) || eq_ignore_ascii_case(s, word_newreno()) {
        Some(CongestionControl::NewReno)
    } else if eq_ignore_ascii_case(s, word_bbr()) {
        Some(CongestionControl::Bbr)
    } else {
        None
    }
}

/// The UDP relay mode a configuration string names, if any.
pub open spec fn udp_relay_mode_named(s: Seq<u8>) -> Option<UdpRelayMode> {
    if eq_ignore_ascii_case(s, word_native()) {
        Some(UdpRelayMode::Native)
    } else if eq_ignore_ascii_case(s, word_quic()) {
        Some(UdpRelayMode::Quic)
    } else {
        None
    }
}

pub open spec fn udp_relay_mode_name(m: UdpRelayMode) -> Seq<char> {
    match m {
        UdpRelayMode::Native => "native"@,
        UdpRelayMode::Quic => "quic"@,
    }
}

fn lower_byte(b: u8) -> (r: u8)
    ensures
        r == ascii_lower(b),
{
    if 65 <= b && b <= 90 {
        b + 32
    } else {
        b
    }
}

/// Compares `a` with the lower-case word `w`, ignoring ASCII case.
fn matches_word(a: &[u8], w: &[u8]) -> (r: bool)
    ensures
        r == eq_ignore_ascii_case(a@, w@),
{
    if a.len() != w.len() {
        return false;
    }
    let mut i: usize = 0;
    while i < a.len()
        invariant
            a@.len() == w@.len(),
            i <= a@.len(),
            forall|j: int| 0 <= j < i ==> ascii_lower(a@[j]) == ascii_lower(w@[j]),
        decreases a@.len() - i,
    {
        if lower_byte(a[i]) != lower_byte(w[i]) {
            return false;
        }
        i = i + 1;
    }
    true
}

impl CongestionControl {
    /// Parses a congestion controller name: "cubic", "new_reno" or "newreno",
    /// and "bbr", in any ASCII case.
    pub fn from_str(s: &str) -> (r: Result<CongestionControl, &'static str>)
        ensures
            match r {
                Ok(c) => congestion_control_named(s.spec_bytes()) == Some(c),
                Err(_) => congestion_control_named(s.spec_bytes()) is None,
            },
    {
        let b = s.as_bytes();
        let cubic: [u8; 5] = [99, 117, 98, 105, 99];
        let new_reno: [u8; 8] = [110, 101, 119, 95, 114, 101, 110, 111];
        let newreno: [u8; 7] = [110, 101, 119, 114, 101, 110, 111];
        let bbr: [u8; 3] = [98, 98, 114];
        assert(cubic@ =~= word_cubic());
        assert(new_reno@ =~= word_new_reno());
        assert(newreno@ =~= word_newreno());
        assert(bbr@ =~= word_bbr());
        if matches_word(b, &cubic) {
            Ok(CongestionControl::Cubic)
        } else if matches_word(b, &new_reno) || matches_word(b, &newreno) {
            Ok(CongestionControl::NewReno)
        } else if matches_word(b, &bbr) {
            Ok(CongestionControl::Bbr)
        } else {
            Err("invalid congestion control")
        }
    }
}

impl UdpRelayMode {
    /// Parses a UDP relay mode name: "native" or "quic", in any ASCII case.
    pub fn from_str(s: &str) -> (r: Result<UdpRelayMode, &'static str>)
        ensures
            match r {
                Ok(m) => udp_relay_mode_named(s.spec_bytes()) == Some(m),
                Err(_) => udp_relay_mode_named(s.spec_bytes()) is None,
            },
    {
        let b = s.as_bytes();
        let native: [u8; 6] = [110, 97, 116, 105, 118, 101];
        let quic: [u8; 4] = [113, 117, 105, 99];
        assert(native@ =~= word_native());
        assert(quic@ =~= word_quic());
        if matches_word(b, &native) {
            Ok(UdpRelayMode::Native)
        } else if matches_word(b, &quic) {
            Ok(UdpRelayMode::Quic)
        } else {
            Err("invalid UDP relay mode")
        }
    }

    /// The mode's name, as configuration files spell it.
    pub fn to_string(&self) -> (r: String)
        ensures
            r@ == udp_relay_mode_name(*self),
    {
        match self {
            UdpRelayMode::Native => "native".to_owned(),
            UdpRelayMode::Quic => "quic".to_owned(),
        }
    }
}

/// Parsing a congestion controller name accepts exactly the four spellings
/// "cubic", "new_reno", "newreno" and "bbr", in any ASCII case, and whether a
/// string is accepted does not depend on the case of its letters.
pub proof fn lemma_congestion_control_names(s: Seq<u8>, t: Seq<u8>)
    requires
        eq_ignore_ascii_case(s, t),
    ensures
        congestion_control_named(s) == congestion_control_named(t),
        congestion_control_named(s) is Some <==> (eq_ignore_ascii_case(s, word_cubic())
            || eq_ignore_ascii_case(s, word_new_reno()) || eq_ignore_ascii_case(s, word_newreno())
            || eq_ignore_ascii_case(s, word_bbr())),
{
    assert(forall|w: Seq<u8>| eq_ignore_ascii_case(s, w) <==> eq_ignore_ascii_case(t, w));
}

} // verus!
