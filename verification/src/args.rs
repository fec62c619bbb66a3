//! Command line values: the MPD server address, the music directory and the
//! choice of player.

use vstd::prelude::*;
use vstd::string::StrSliceExecFns;
use vstd::string::StringExecFns;

use crate::decimal::{
    decimal, is_digit, lemma_scan_decimal, parse_u32, parse_u32_spec, push_decimal,
    IntErrorKind,
};

verus! {

/// The MPD server address used when none is given.
pub const DEFAULT_ADDRESS: &'static str = "localhost:6600";

/// Number of `:` characters in `s`.
pub open spec fn colon_count(s: Seq<char>) -> nat
    decreases s.len(),
{
    if s.len() == 0 {
        0
    } else {
        colon_count(s.drop_last()) + if s.last() == ':' { 1nat } else { 0nat }
    }
}

/// Index of the last `:` in `s`, or -1 where there is none.
pub open spec fn last_colon(s: Seq<char>) -> int
    decreases s.len(),
{
    if s.len() == 0 {
        -1
    } else if s.last() == ':' {
        s.len() - 1
    } else {
        last_colon(s.drop_last())
    }
}

/// Why an address is refused.
#[derive(Clone, Copy, Debug, PartialEq, Eq, Structural)]
pub enum AddressError {
    /// The address is not two parts separated by one `:`.
    Format,
    /// The part after the `:` is not a `u32` port.
    Port(IntErrorKind),
}

/// An address `hostname:port` splits at its only `:`; the host is the text
/// before it and the port is the text after it, read as a `u32`.
pub open spec fn parse_address_spec(s: Seq<char>) -> Result<(Seq<char>, u32), AddressError> {
    if colon_count(s) != 1 {
        Err(AddressError::Format)
    } else {
        let k: int = last_colon(s);
        match parse_u32_spec(s.skip(k + 1)) {
            Ok(port) => Ok((s.take(k), port)),
            Err(e) => Err(AddressError::Port(e)),
        }
    }
}

proof fn lemma_last_colon_bounds(s: Seq<char>)
    ensures
        -1 <= last_colon(s) < s.len(),
        last_colon(s) >= 0 ==> s[last_colon(s)] == ':',
        colon_count(s) > 0 ==> last_colon(s) >= 0,
    decreases s.len(),
{
    if s.len() > 0 {
        lemma_last_colon_bounds(s.drop_last());
    }
}

/// Parses an MPD server address in the format `hostname:port`.
pub fn parse_address(address: &str) -> (res: Result<(String, u32), AddressError>)
    ensures
        match res {
            Ok((host, port)) => parse_address_spec(address@) == Ok::<(Seq<char>, u32), AddressError>((host@, port)),
            Err(e) => parse_address_spec(address@) == Err::<(Seq<char>, u32), AddressError>(e),
        },
{
    let len: usize = address.unicode_len();
    let mut count: usize = 0;
    let mut pos: usize = 0;
    let mut i: usize = 0;
    assert(address@.take(0) =~= Seq::<char>::empty());
    while i < len
        invariant
            i <= len,
            len == address@.len(),
            count <= i,
            count == colon_count(address@.take(i as int)),
            count > 0 ==> pos == last_colon(address@.take(i as int)),
        decreases len - i,
    {
        let c = address.get_char(i);
        assert(address@.take(i + 1).drop_last() =~= address@.take(i as int));
        if c == ':' {
            count = count + 1;
            pos = i;
        }
        proof {
            if count > 0 && c != ':' {
                lemma_last_colon_bounds(address@.take(i as int));
            }
        }
        i = i + 1;
    }
    assert(address@.take(len as int) =~= address@);
    if count != 1 {
        return Err(AddressError::Format);
    }
    proof {
        lemma_last_colon_bounds(address@);
    }
    let host = address.substring_char(0, pos).to_owned();
    let port_text = address.substring_char(pos + 1, len);
    assert(port_text@ =~= address@.skip(pos + 1));
    assert(host@ =~= address@.take(pos as int));
    match parse_u32(port_text) {
        Ok(port) => Ok((host, port)),
        Err(e) => Err(AddressError::Port(e)),
    }
}

/// The address `host:port` in the format that `parse_address` reads.
pub fn format_address(host: &str, port: u32) -> (res: String)
    ensures
        res@ == host@.push(':') + decimal(port as nat),
{
    proof {
        reveal_strlit(":");
    }
    let mut res = String::from_str(host);
    res.append(":");
    push_decimal(&mut res, port);
    res
}

/// A text without `:` leaves the count and last position of `:` in a
/// prefix unchanged when appended to it.
proof fn lemma_append_no_colon(a: Seq<char>, b: Seq<char>)
    requires
        forall|i: int| 0 <= i < b.len() ==> b[i] != ':',
    ensures
        colon_count(a + b) == colon_count(a),
        last_colon(a + b) == last_colon(a),
    decreases b.len(),
{
    if b.len() == 0 {
        assert(a + b =~= a);
    } else {
        lemma_append_no_colon(a, b.drop_last());
        assert((a + b).drop_last() =~= a + b.drop_last());
        assert((a + b).last() == b.last());
    }
}

proof fn lemma_decimal_digits(n: nat)
    ensures
        forall|i: int| 0 <= i < decimal(n).len() ==> is_digit(#[trigger] decimal(n)[i]),
    decreases n,
{
    crate::decimal::lemma_digit_char((n % 10) as int);
    if n >= 10 {
        lemma_decimal_digits(n / 10);
        assert forall|i: int| 0 <= i < decimal(n).len() implies is_digit(#[trigger] decimal(n)[i]) by {
            if i < decimal(n).len() - 1 {
                assert(decimal(n)[i] == decimal(n / 10)[i]);
            }
        }
    }
}

/// Formatting a host without `:` and a port, and parsing the result, gives
/// back the host and the port.
pub proof fn law_address_roundtrip(host: Seq<char>, port: u32)
    requires
        colon_count(host) == 0,
    ensures
        parse_address_spec(host.push(':') + decimal(port as nat))
            == Ok::<(Seq<char>, u32), AddressError>((host, port)),
{
    let d = decimal(port as nat);
    let s = host.push(':') + d;
    lemma_decimal_digits(port as nat);
    lemma_append_no_colon(host.push(':'), d);
    assert(host.push(':').drop_last() =~= host);
    assert(s.skip(host.len() + 1int) =~= d);
    assert(s.take(host.len() as int) =~= host);
    crate::decimal::law_parse_decimal_roundtrip(port);
}


/// A music directory that is not there.
#[derive(Debug)]
pub enum DirError {
    /// The path names nothing that exists.
    NotFound { path: String },
}

/// Accepts the music directory `path` where something exists there.
pub fn check_dir(path: &str, exists: bool) -> (res: Result<String, DirError>)
    ensures
        exists ==> (res matches Ok(p) && p@ == path@),
        !exists ==> (res matches Err(DirError::NotFound { path: p }) && p@ == path@),
{
    if exists {
        Ok(path.to_owned())
    } else {
        Err(DirError::NotFound { path: path.to_owned() })
    }
}

/// Which player the program controls.
#[derive(Clone, Copy, Debug, PartialEq, Eq, Structural)]
pub enum PlayerSelection {
    /// A Music Player Daemon server.
    Mpd,
    /// A media player found on the session bus.
    Mpris,
}

/// What is needed to connect to the chosen player.
#[derive(Debug)]
pub enum PlayerConfig {
    Mpd { host: String, port: u32, music_library_dir: String },
    Mpris,
}

/// A combination of arguments that the program refuses.
#[derive(Clone, Copy, Debug, PartialEq, Eq, Structural)]
pub enum ArgsError {
    /// MPD was chosen without a music directory.
    MissingDir,
}

/// The player to connect to: MPD needs the music directory, MPRIS needs
/// nothing more.
pub fn player_config(selection: PlayerSelection, address: (String, u32), dir: Option<String>) -> (res:
    Result<PlayerConfig, ArgsError>)
    ensures
        selection == PlayerSelection::Mpris ==> res matches Ok(PlayerConfig::Mpris),
        selection == PlayerSelection::Mpd ==> match dir {
            None => res == Err::<PlayerConfig, ArgsError>(ArgsError::MissingDir),
            Some(d) => res matches Ok(PlayerConfig::Mpd { host, port, music_library_dir })
                && host@ == address.0@ && port == address.1 && music_library_dir@ == d@,
        },
{
    match selection {
        PlayerSelection::Mpris => Ok(PlayerConfig::Mpris),
        PlayerSelection::Mpd => match dir {
            None => Err(ArgsError::MissingDir),
            Some(d) => Ok(PlayerConfig::Mpd { host: address.0, port: address.1, music_library_dir: d }),
        },
    }
}

proof fn lemma_no_colon(s: Seq<char>)
    requires
        colon_count(s) == 0,
    ensures
        forall|i: int| 0 <= i < s.len() ==> s[i] != ':',
    decreases s.len(),
{
    if s.len() > 0 {
        lemma_no_colon(s.drop_last());
        assert forall|i: int| 0 <= i < s.len() implies s[i] != ':' by {
            if i < s.len() - 1 {
                assert(s[i] == s.drop_last()[i]);
            }
        }
    }
}

proof fn lemma_count_before_last_colon(s: Seq<char>)
    requires
        last_colon(s) >= 0,
    ensures
        colon_count(s) == colon_count(s.take(last_colon(s))) + 1,
    decreases s.len(),
{
    lemma_last_colon_bounds(s);
    if s.last() == ':' {
        assert(s.drop_last() =~= s.take(last_colon(s)));
    } else {
        lemma_count_before_last_colon(s.drop_last());
        lemma_last_colon_bounds(s.drop_last());
        assert(s.drop_last().take(last_colon(s)) =~= s.take(last_colon(s)));
    }
}

/// An accepted address is the host, one `:` and the port's text: the host
/// holds no `:` and the text after the `:` reads as the port.
pub proof fn law_address_parts(s: Seq<char>, host: Seq<char>, port: u32)
    requires
        parse_address_spec(s) == Ok::<(Seq<char>, u32), AddressError>((host, port)),
    ensures
        host.len() < s.len(),
        s.take(host.len() as int) == host,
        s[host.len() as int] == ':',
        forall|i: int| 0 <= i < host.len() ==> host[i] != ':',
        forall|i: int| host.len() < i < s.len() ==> s[i] != ':',
        parse_u32_spec(s.skip(host.len() + 1int)) == Ok::<u32, IntErrorKind>(port),
{
    lemma_last_colon_bounds(s);
    let k = last_colon(s);
    lemma_count_before_last_colon(s);
    lemma_no_colon(s.take(k));
    assert(s.take(k).len() == k);
    assert forall|i: int| k < i < s.len() implies s[i] != ':' by {
        lemma_after_last_colon(s, i);
    }
}

proof fn lemma_after_last_colon(s: Seq<char>, i: int)
    requires
        last_colon(s) < i < s.len(),
    ensures
        s[i] != ':',
    decreases s.len(),
{
    lemma_last_colon_bounds(s);
    if s.last() != ':' && i < s.len() - 1 {
        lemma_after_last_colon(s.drop_last(), i);
        assert(s[i] == s.drop_last()[i]);
    }
}

/// An address without a `:` is refused as badly formed.
pub proof fn law_address_without_colon(s: Seq<char>)
    requires
        forall|i: int| 0 <= i < s.len() ==> s[i] != ':',
    ensures
        parse_address_spec(s) == Err::<(Seq<char>, u32), AddressError>(AddressError::Format),
{
    lemma_count_zero(s);
}

/// An address with two `:` is refused as badly formed.
pub proof fn law_address_two_colons(s: Seq<char>, i: int, j: int)
    requires
        0 <= i < j < s.len(),
        s[i] == ':',
        s[j] == ':',
    ensures
        parse_address_spec(s) == Err::<(Seq<char>, u32), AddressError>(AddressError::Format),
{
    if colon_count(s) == 1 {
        lemma_last_colon_bounds(s);
        let k = last_colon(s);
        lemma_count_before_last_colon(s);
        lemma_no_colon(s.take(k));
        if i < k {
            assert(s.take(k)[i] == s[i]);
        } else if j > k {
            lemma_after_last_colon(s, j);
        } else {
            lemma_after_last_colon(s, j);
        }
    }
}

proof fn lemma_count_zero(s: Seq<char>)
    requires
        forall|i: int| 0 <= i < s.len() ==> s[i] != ':',
    ensures
        colon_count(s) == 0,
    decreases s.len(),
{
    if s.len() > 0 {
        lemma_count_zero(s.drop_last());
    }
}

} // verus!
