use vstd::prelude::*;

use vstd::utf8::encode_utf8;

use crate::session::Ipv4Address;
use crate::text::{push_decimal, push_str, spec_decimal, str_eq};

verus! {

/// A network interface's name and its IPv4 address, if the address is one.
#[derive(Debug, Clone, PartialEq, Eq)]
pub struct InterfaceAddress {
    pub name: String,
    pub ipv4: Option<Ipv4Address>,
}

/// A documentation address: 192.0.2.0/24, 198.51.100.0/24 or 203.0.113.0/24.
pub open spec fn spec_is_documentation(ip: Ipv4Address) -> bool {
    (ip.a == 192 && ip.b == 0 && ip.c == 2) || (ip.a == 198 && ip.b == 51 && ip.c == 100) || (ip.a
        == 203 && ip.b == 0 && ip.c == 113)
}

/// A private address (10/8, 172.16/12, 192.168/16) that is not loopback,
/// link-local, broadcast, unspecified, multicast or documentation.
pub open spec fn spec_is_usable_lan(ip: Ipv4Address) -> bool {
    let private = ip.a == 10 || (ip.a == 172 && 16 <= ip.b <= 31) || (ip.a == 192 && ip.b == 168);
    let loopback = ip.a == 127;
    let link_local = ip.a == 169 && ip.b == 254;
    let broadcast = ip.a == 255 && ip.b == 255 && ip.c == 255 && ip.d == 255;
    let unspecified = ip.a == 0 && ip.b == 0 && ip.c == 0 && ip.d == 0;
    let multicast = 224 <= ip.a <= 239;
    private && !loopback && !link_local && !broadcast && !unspecified && !multicast
        && !spec_is_documentation(ip)
}

pub fn is_documentation_ipv4(ip: Ipv4Address) -> (r: bool)
    ensures
        r == spec_is_documentation(ip),
{
    (ip.a == 192 && ip.b == 0 && ip.c == 2) || (ip.a == 198 && ip.b == 51 && ip.c == 100) || (ip.a
        == 203 && ip.b == 0 && ip.c == 113)
}

pub fn is_usable_lan_ipv4(ip: Ipv4Address) -> (r: bool)
    ensures
        r == spec_is_usable_lan(ip),
{
    let private = ip.a == 10 || (ip.a == 172 && 16 <= ip.b && ip.b <= 31) || (ip.a == 192 && ip.b
        == 168);
    let loopback = ip.a == 127;
    let link_local = ip.a == 169 && ip.b == 254;
    let broadcast = ip.a == 255 && ip.b == 255 && ip.c == 255 && ip.d == 255;
    let unspecified = ip.a == 0 && ip.b == 0 && ip.c == 0 && ip.d == 0;
    let multicast = 224 <= ip.a && ip.a <= 239;
    private && !loopback && !link_local && !broadcast && !unspecified && !multicast
        && !is_documentation_ipv4(ip)
}

/// The address in dotted decimal.
pub open spec fn spec_dotted(ip: Ipv4Address) -> Seq<char> {
    spec_decimal(ip.a as nat) + "."@ + spec_decimal(ip.b as nat) + "."@ + spec_decimal(ip.c as nat)
        + "."@ + spec_decimal(ip.d as nat)
}

pub fn ipv4_text(ip: Ipv4Address) -> (r: String)
    ensures
        r@ == spec_dotted(ip),
{
    let mut s = String::new();
    push_decimal(&mut s, ip.a);
    push_str(&mut s, ".");
    push_decimal(&mut s, ip.b);
    push_str(&mut s, ".");
    push_decimal(&mut s, ip.c);
    push_str(&mut s, ".");
    push_decimal(&mut s, ip.d);
    assert(s@ =~= spec_dotted(ip));
    s
}

/// An ASCII capital byte lowered.
pub open spec fn lower_byte(b: u8) -> u8 {
    if 65 <= b <= 90 {
        (b + 32) as u8
    } else {
        b
    }
}

/// `needle` occurs in `hay` starting at `i`.
pub open spec fn occurs_at(hay: Seq<u8>, needle: Seq<u8>, i: int) -> bool {
    0 <= i && i + needle.len() <= hay.len() && hay.subrange(i, i + needle.len()) == needle
}

/// The words that mark a virtual, tunnel or loopback interface.
pub open spec fn virtual_keywords() -> Seq<Seq<char>> {
    seq![
        "loopback"@,
        "docker"@,
        "hyper-v"@,
        "vethernet"@,
        "vmware"@,
        "virtualbox"@,
        "vbox"@,
        "wsl"@,
        "npcap"@,
        "bluetooth"@,
        "bridge"@,
        "zerotier"@,
        "tailscale"@,
        "wireguard"@,
        "wintun"@,
        "vpn"@,
        "tun"@,
        "tap"@,
        "clash"@,
    ]
}

/// The interface name, with its ASCII letters lowered, contains one of the
/// virtual interface words (compared on the UTF-8 bytes).
pub open spec fn spec_is_virtual_name(name: Seq<char>) -> bool {
    let lowered = encode_utf8(name).map_values(|b: u8| lower_byte(b));
    exists|k: int, i: int|
        0 <= k < virtual_keywords().len() && #[trigger] occurs_at(lowered, encode_utf8(virtual_keywords()[k]), i)
}

fn lower_bytes(bytes: &[u8]) -> (r: Vec<u8>)
    ensures
        r@ == bytes@.map_values(|b: u8| lower_byte(b)),
{
    let mut out: Vec<u8> = Vec::new();
    let mut i: usize = 0;
    while i < bytes.len()
        invariant
            i <= bytes@.len(),
            out@ == bytes@.take(i as int).map_values(|b: u8| lower_byte(b)),
        decreases bytes@.len() - i,
    {
        let b = bytes[i];
        let l = if 65 <= b && b <= 90 {
            b + 32
        } else {
            b
        };
        out.push(l);
        proof {
            assert(bytes@.take(i as int + 1).map_values(|b: u8| lower_byte(b)) =~= bytes@.take(
                i as int,
            ).map_values(|b: u8| lower_byte(b)).push(lower_byte(b)));
        }
        i = i + 1;
    }
    proof {
        assert(bytes@.take(bytes@.len() as int) =~= bytes@);
    }
    out
}

fn matches_at(hay: &Vec<u8>, needle: &[u8], i: usize) -> (r: bool)
    requires
        i + needle@.len() <= hay@.len(),
    ensures
        r == occurs_at(hay@, needle@, i as int),
{
    let mut j: usize = 0;
    while j < needle.len()
        invariant
            j <= needle@.len(),
            i + needle@.len() <= hay.len(),
            forall|t: int| 0 <= t < j ==> hay@[i + t] == needle@[t],
        decreases needle@.len() - j,
    {
        if hay[i + j] != needle[j] {
            proof {
                let sub = hay@.subrange(i as int, i + needle@.len());
                assert(sub[j as int] != needle@[j as int]);
            }
            return false;
        }
        j = j + 1;
    }
    assert(hay@.subrange(i as int, i + needle@.len()) =~= needle@);
    true
}

fn contains_bytes(hay: &Vec<u8>, needle: &[u8]) -> (r: bool)
    ensures
        r == exists|i: int| occurs_at(hay@, needle@, i),
{
    if needle.len() > hay.len() {
        return false;
    }
    if needle.len() == 0 {
        assert(hay@.subrange(0, 0) =~= needle@);
        assert(occurs_at(hay@, needle@, 0));
        return true;
    }
    let last = hay.len() - needle.len();
    let mut i: usize = 0;
    while i <= last
        invariant
            last == hay@.len() - needle@.len(),
            0 < needle@.len() <= hay@.len(),
            last < hay.len(),
            i <= last + 1,
            forall|t: int| 0 <= t < i ==> !occurs_at(hay@, needle@, t),
        decreases last + 1 - i,
    {
        if matches_at(hay, needle, i) {
            return true;
        }
        i = i + 1;
    }
    proof {
        assert forall|t: int| !occurs_at(hay@, needle@, t) by {
            if 0 <= t < i {
            }
        }
    }
    false
}

/// The interface looks virtual; see [`spec_is_virtual_name`].
pub fn is_virtual_interface_name(name: &str) -> (r: bool)
    ensures
        r == spec_is_virtual_name(name@),
{
    let lowered = lower_bytes(name.as_bytes());
    let keywords = [
        "loopback",
        "docker",
        "hyper-v",
        "vethernet",
        "vmware",
        "virtualbox",
        "vbox",
        "wsl",
        "npcap",
        "bluetooth",
        "bridge",
        "zerotier",
        "tailscale",
        "wireguard",
        "wintun",
        "vpn",
        "tun",
        "tap",
        "clash",
    ];
    let ghost kw = keywords@.map_values(|s: &str| s@);
    assert(kw =~= virtual_keywords());
    let mut k: usize = 0;
    while k < 19
        invariant
            k <= 19,
            keywords@.len() == 19,
            keywords@.map_values(|s: &str| s@) == virtual_keywords(),
            lowered@ == encode_utf8(name@).map_values(|b: u8| lower_byte(b)),
            forall|q: int, i: int| 0 <= q < k ==> !occurs_at(lowered@, encode_utf8(virtual_keywords()[q]), i),
        decreases 19 - k,
    {
        let keyword = keywords[k];
        assert(keyword@ == virtual_keywords()[k as int]);
        if contains_bytes(&lowered, keyword.as_bytes()) {
            return true;
        }
        k = k + 1;
    }
    false
}

/// The addresses worth showing, in order: each usable address of a
/// non-virtual interface once, by its text.
pub open spec fn spec_candidates(entries: Seq<(Seq<char>, Option<Ipv4Address>)>) -> Seq<Seq<char>>
    decreases entries.len(),
{
    if entries.len() == 0 {
        Seq::empty()
    } else {
        let before = spec_candidates(entries.drop_last());
        let (name, ip) = entries.last();
        match ip {
            Some(v4) => if spec_is_usable_lan(v4) && !spec_is_virtual_name(name) && !before.contains(
                spec_dotted(v4),
            ) {
                before.push(spec_dotted(v4))
            } else {
                before
            },
            None => before,
        }
    }
}

/// The candidates with the primary address moved to the front when it is one of them.
pub open spec fn spec_lan_values(entries: Seq<(Seq<char>, Option<Ipv4Address>)>, primary: Option<Ipv4Address>) -> Seq<Seq<char>> {
    let c = spec_candidates(entries);
    match primary {
        Some(p) => if c.contains(spec_dotted(p)) {
            let i = choose|i: int| 0 <= i < c.len() && c[i] == spec_dotted(p);
            seq![spec_dotted(p)] + c.remove(i)
        } else {
            c
        },
        None => c,
    }
}

pub open spec fn entries_view(entries: Seq<InterfaceAddress>) -> Seq<(Seq<char>, Option<Ipv4Address>)> {
    entries.map_values(|e: InterfaceAddress| (e.name@, e.ipv4))
}

fn position_of_text(values: &Vec<String>, value: &str) -> (r: Option<usize>)
    ensures
        match r {
            Some(i) => i < values@.len() && values@[i as int]@ == value@ && forall|j: int|
                0 <= j < i ==> values@[j]@ != value@,
            None => !values@.map_values(|s: String| s@).contains(value@),
        },
{
    let mut i: usize = 0;
    while i < values.len()
        invariant
            i <= values@.len(),
            forall|j: int| 0 <= j < i ==> values@[j]@ != value@,
        decreases values@.len() - i,
    {
        if str_eq(values[i].as_str(), value) {
            return Some(i);
        }
        i = i + 1;
    }
    proof {
        let v = values@.map_values(|s: String| s@);
        if v.contains(value@) {
            let j = choose|j: int| 0 <= j < v.len() && v[j] == value@;
            assert(values@[j]@ == value@);
        }
    }
    None
}

/// The LAN addresses the desktop shell offers, given the interfaces and the
/// address the system routes by; see [`spec_lan_values`].
pub fn collect_lan_ipv4_values(entries: &Vec<InterfaceAddress>, primary: Option<Ipv4Address>) -> (r: Vec<String>)
    ensures
        r@.map_values(|s: String| s@) == spec_lan_values(entries_view(entries@), primary),
{
    let mut candidates: Vec<String> = Vec::new();
    let mut i: usize = 0;
    while i < entries.len()
        invariant
            i <= entries@.len(),
            candidates@.map_values(|s: String| s@) == spec_candidates(entries_view(entries@.take(i as int))),
        decreases entries@.len() - i,
    {
        let ghost before = candidates@;
        proof {
            let t = entries_view(entries@.take(i as int + 1));
            assert(t.drop_last() =~= entries_view(entries@.take(i as int)));
            assert(t.last() == (entries@[i as int].name@, entries@[i as int].ipv4));
        }
        match entries[i].ipv4 {
            Some(v4) => {
                if is_usable_lan_ipv4(v4) && !is_virtual_interface_name(entries[i].name.as_str()) {
                    let text = ipv4_text(v4);
                    match position_of_text(&candidates, text.as_str()) {
                        None => {
                            candidates.push(text);
                            proof {
                                assert(candidates@.map_values(|s: String| s@) =~= before.map_values(
                                    |s: String| s@,
                                ).push(spec_dotted(v4)));
                            }
                        },
                        Some(at) => {
                            proof {
                                let v = before.map_values(|s: String| s@);
                                assert(v[at as int] == spec_dotted(v4));
                                assert(v.contains(spec_dotted(v4)));
                            }
                        },
                    }
                }
            },
            None => {},
        }
        i = i + 1;
    }
    proof {
        assert(entries@.take(entries@.len() as int) =~= entries@);
    }
    let ghost c = candidates@.map_values(|s: String| s@);
    match primary {
        Some(p) => {
            let text = ipv4_text(p);
            match position_of_text(&candidates, text.as_str()) {
                Some(index) => {
                    let ghost before = candidates@;
                    let moved = candidates.remove(index);
                    candidates.insert(0, moved);
                    proof {
                        assert(c[index as int] == spec_dotted(p));
                        assert(c.contains(spec_dotted(p)));
                        let j = choose|j: int| 0 <= j < c.len() && c[j] == spec_dotted(p);
                        assert(c =~= spec_candidates(entries_view(entries@)));
                        lemma_unique_texts(entries_view(entries@));
                        if j != index as int {
                            assert(c[j] == c[index as int]);
                            assert(false);
                        }
                        assert(j == index as int);
                        assert(candidates@.map_values(|s: String| s@) =~= seq![spec_dotted(p)] + c.remove(
                            index as int,
                        ));
                    }
                },
                None => {},
            }
        },
        None => {},
    }
    candidates
}

/// No candidate text occurs twice.
pub proof fn lemma_unique_texts(entries: Seq<(Seq<char>, Option<Ipv4Address>)>)
    ensures
        forall|i: int, j: int|
            0 <= i < j < spec_candidates(entries).len() ==> spec_candidates(entries)[i]
                != spec_candidates(entries)[j],
    decreases entries.len(),
{
    if entries.len() > 0 {
        lemma_unique_texts(entries.drop_last());
        let before = spec_candidates(entries.drop_last());
        let c = spec_candidates(entries);
        if c.len() > before.len() {
            assert(c == before.push(c.last()));
            assert(!before.contains(c.last()));
            assert forall|i: int, j: int| 0 <= i < j < c.len() implies c[i] != c[j] by {
                if j == before.len() {
                    assert(c[i] == before[i]);
                } else {
                    assert(c[i] == before[i] && c[j] == before[j]);
                }
            }
        }
    }
}

} // verus!
