//! Client addresses and networks, read from text.
//!
//! A ban entry names one address or a network in CIDR notation. This module
//! holds the grammar of both and the containment test between them.

use vstd::prelude::*;
use crate::text::{split, split_chars, views};

verus! {

/// A parsed client address.
#[derive(Debug, Clone, Copy, PartialEq, Eq, Structural)]
pub enum IpAddress {
    /// An IPv4 address as its 32-bit value, first octet most significant.
    V4(u32),
    /// An IPv6 address as its 128-bit value, first group most significant.
    V6(u128),
}

/// A network: an address and the number of leading bits that count.
#[derive(Debug, Clone, Copy, PartialEq, Eq, Structural)]
pub struct Network {
    pub addr: IpAddress,
    pub prefix: u8,
}

/// Whether `c` is a decimal digit.
pub open spec fn is_digit(c: char) -> bool {
    '0' <= c && c <= '9'
}

/// The value of a decimal digit.
pub open spec fn digit_value(c: char) -> int {
    c as int - '0' as int
}

/// The number that a run of decimal digits denotes.
pub open spec fn decimal_value(s: Seq<char>) -> int
    decreases s.len(),
{
    if s.len() == 0 {
        0
    } else {
        10 * decimal_value(s.drop_last()) + digit_value(s.last())
    }
}

/// Whether `s` is a decimal numeral of at most `max_len` digits without a
/// superfluous leading zero.
pub open spec fn is_numeral(s: Seq<char>, max_len: int) -> bool {
    &&& 1 <= s.len() <= max_len
    &&& forall|i: int| 0 <= i < s.len() ==> is_digit(#[trigger] s[i])
    &&& (s.len() == 1 || s[0] != '0')
}

/// The number that `s` denotes, where `s` is a numeral of at most `max_len`
/// digits and the number is at most `max`.
pub open spec fn parse_number(s: Seq<char>, max_len: int, max: int) -> Option<int> {
    if is_numeral(s, max_len) && decimal_value(s) <= max {
        Some(decimal_value(s))
    } else {
        None
    }
}

/// The IPv4 address that a dotted quad denotes: four numerals of at most 255,
/// separated by dots.
pub open spec fn parse_ipv4(s: Seq<char>) -> Option<u32> {
    let parts = split(s, '.');
    if parts.len() == 4 && parse_number(parts[0], 3, 255) is Some && parse_number(parts[1], 3, 255)
        is Some && parse_number(parts[2], 3, 255) is Some && parse_number(parts[3], 3, 255)
        is Some {
        Some(
            (((parse_number(parts[0], 3, 255)->0 * 256 + parse_number(parts[1], 3, 255)->0) * 256
                + parse_number(parts[2], 3, 255)->0) * 256 + parse_number(
                parts[3],
                3,
                255,
            )->0) as u32,
        )
    } else {
        None
    }
}

/// Whether `c` is a hexadecimal digit of either case.
pub open spec fn is_hex_digit(c: char) -> bool {
    is_digit(c) || ('a' <= c && c <= 'f') || ('A' <= c && c <= 'F')
}

/// The value of a hexadecimal digit.
pub open spec fn hex_value(c: char) -> int {
    if is_digit(c) {
        c as int - '0' as int
    } else if 'a' <= c && c <= 'f' {
        c as int - 'a' as int + 10
    } else {
        c as int - 'A' as int + 10
    }
}

/// The number that a run of hexadecimal digits denotes.
pub open spec fn hex_number(s: Seq<char>) -> int
    decreases s.len(),
{
    if s.len() == 0 {
        0
    } else {
        16 * hex_number(s.drop_last()) + hex_value(s.last())
    }
}

/// The 16-bit group that `s` denotes: one to four hexadecimal digits.
pub open spec fn parse_group(s: Seq<char>) -> Option<int> {
    if 1 <= s.len() <= 4 && forall|i: int| 0 <= i < s.len() ==> is_hex_digit(#[trigger] s[i]) {
        Some(hex_number(s))
    } else {
        None
    }
}

/// The groups that the parts denote, where each part is a group.
pub open spec fn parse_groups(parts: Seq<Seq<char>>) -> Option<Seq<int>>
    decreases parts.len(),
{
    if parts.len() == 0 {
        Some(Seq::empty())
    } else {
        match (parse_groups(parts.drop_last()), parse_group(parts.last())) {
            (Some(init), Some(g)) => Some(init.push(g)),
            _ => None,
        }
    }
}

/// The groups that the parts denote, where each part is a group and the
/// last part may instead be a dotted quad, which stands for two groups.
pub open spec fn parse_tail_groups(parts: Seq<Seq<char>>, quad: bool) -> Option<Seq<int>> {
    if parts.len() == 0 {
        Some(Seq::empty())
    } else {
        match parse_groups(parts.drop_last()) {
            Some(init) => match parse_group(parts.last()) {
                Some(g) => Some(init.push(g)),
                None => if quad && parse_ipv4(parts.last()) is Some {
                    Some(
                        init.push(parse_ipv4(parts.last())->0 as int / 65536).push(
                            parse_ipv4(parts.last())->0 as int % 65536,
                        ),
                    )
                } else {
                    None
                },
            },
            None => None,
        }
    }
}

/// The groups that a colon-separated text denotes; the empty text denotes
/// no groups.
pub open spec fn parse_run(s: Seq<char>, quad: bool) -> Option<Seq<int>> {
    if s.len() == 0 {
        Some(Seq::empty())
    } else {
        parse_tail_groups(split(s, ':'), quad)
    }
}

/// The first position at or after `from` where two colons stand side by
/// side, or the length of `s` where there is none.
pub open spec fn double_colon_from(s: Seq<char>, from: int) -> int
    decreases s.len() - from,
{
    if from < 0 || from + 1 >= s.len() {
        s.len() as int
    } else if s[from] == ':' && s[from + 1] == ':' {
        from
    } else {
        double_colon_from(s, from + 1)
    }
}

/// The number that groups denote, the first group the most significant.
pub open spec fn groups_value(groups: Seq<int>) -> int
    decreases groups.len(),
{
    if groups.len() == 0 {
        0
    } else {
        65536 * groups_value(groups.drop_last()) + groups.last()
    }
}

/// `n` groups of zero.
pub open spec fn zero_groups(n: int) -> Seq<int> {
    Seq::new(n as nat, |i: int| 0int)
}

/// The IPv6 address that `s` denotes: eight groups separated by colons,
/// where one `::` may stand for one or more groups of zero and the last two
/// groups may be written as a dotted quad.
pub open spec fn parse_ipv6(s: Seq<char>) -> Option<u128> {
    let gap = double_colon_from(s, 0);
    if gap >= s.len() {
        match parse_run(s, true) {
            Some(groups) => if groups.len() == 8 {
                Some(groups_value(groups) as u128)
            } else {
                None
            },
            None => None,
        }
    } else {
        match (
            parse_run(s.subrange(0, gap), false),
            parse_run(s.subrange(gap + 2, s.len() as int), true),
        ) {
            (Some(head), Some(tail)) => if head.len() + tail.len() <= 7 {
                Some(
                    groups_value(head + zero_groups(8 - head.len() - tail.len()) + tail) as u128,
                )
            } else {
                None
            },
            _ => None,
        }
    }
}

/// The address that `s` denotes: a dotted quad, or else an IPv6 address.
pub open spec fn parse_ip(s: Seq<char>) -> Option<IpAddress> {
    match parse_ipv4(s) {
        Some(v) => Some(IpAddress::V4(v)),
        None => match parse_ipv6(s) {
            Some(v) => Some(IpAddress::V6(v)),
            None => None,
        },
    }
}

/// The number of bits in an address of the family of `addr`.
pub open spec fn address_bits(addr: IpAddress) -> int {
    match addr {
        IpAddress::V4(_) => 32,
        IpAddress::V6(_) => 128,
    }
}

/// The network that `s` denotes: a bare address stands for the network that
/// holds only itself; `address/length` stands for the addresses that share
/// the first `length` bits.
pub open spec fn parse_network(s: Seq<char>) -> Option<Network> {
    let parts = split(s, '/');
    if parts.len() == 1 {
        match parse_ip(s) {
            Some(addr) => Some(Network { addr, prefix: address_bits(addr) as u8 }),
            None => None,
        }
    } else if parts.len() == 2 {
        match (parse_ip(parts[0]), parse_number(parts[1], 3, 128)) {
            (Some(addr), Some(len)) => if len <= address_bits(addr) {
                Some(Network { addr, prefix: len as u8 })
            } else {
                None
            },
            _ => None,
        }
    } else {
        None
    }
}

/// The leading `prefix` bits of a 32-bit address, as a number.
pub open spec fn leading_bits_v4(addr: u32, prefix: int) -> int {
    if prefix <= 0 {
        0
    } else {
        (addr >> ((32 - prefix) as u32)) as int
    }
}

/// The leading `prefix` bits of a 128-bit address, as a number.
pub open spec fn leading_bits_v6(addr: u128, prefix: int) -> int {
    if prefix <= 0 {
        0
    } else {
        (addr >> ((128 - prefix) as u128)) as int
    }
}

impl Network {
    /// Whether the network's prefix fits its address family.
    pub open spec fn wf(&self) -> bool {
        self.prefix <= address_bits(self.addr)
    }

    /// Whether `ip` lies in this network: the prefix fits the family, the
    /// family is the same, and so are the leading bits.
    pub open spec fn spec_contains(&self, ip: IpAddress) -> bool {
        self.wf() && match (self.addr, ip) {
            (IpAddress::V4(net), IpAddress::V4(a)) => leading_bits_v4(net, self.prefix as int)
                == leading_bits_v4(a, self.prefix as int),
            (IpAddress::V6(net), IpAddress::V6(a)) => leading_bits_v6(net, self.prefix as int)
                == leading_bits_v6(a, self.prefix as int),
            _ => false,
        }
    }

    /// Tells whether `ip` lies in this network.
    pub fn contains(&self, ip: IpAddress) -> (inside: bool)
        ensures
            inside == self.spec_contains(ip),
    {
        match (self.addr, ip) {
            (IpAddress::V4(net), IpAddress::V4(a)) => {
                if self.prefix > 32 {
                    false
                } else if self.prefix == 0 {
                    true
                } else {
                    let shift: u32 = 32 - self.prefix as u32;
                    (net >> shift) == (a >> shift)
                }
            },
            (IpAddress::V6(net), IpAddress::V6(a)) => {
                if self.prefix > 128 {
                    false
                } else if self.prefix == 0 {
                    true
                } else {
                    let shift: u128 = 128 - self.prefix as u128;
                    (net >> shift) == (a >> shift)
                }
            },
            _ => false,
        }
    }
}

/// Reads a numeral of at most `max_len` digits and of value at most `max`.
pub fn read_number(s: &[char], max_len: usize, max: u32) -> (r: Option<u32>)
    requires
        max_len <= 9,
    ensures
        r is Some <==> parse_number(s@, max_len as int, max as int) is Some,
        r matches Some(v) ==> v as int == parse_number(s@, max_len as int, max as int)->0 && v
            <= max,
{
    let n = s.len();
    if n == 0 || n > max_len {
        return None;
    }
    if n > 1 && s[0] == '0' {
        return None;
    }
    let mut value: u32 = 0;
    let mut i: usize = 0;
    while i < n
        invariant
            i <= n,
            n == s.len(),
            n <= max_len <= 9,
            forall|j: int| 0 <= j < i ==> is_digit(#[trigger] s@[j]),
            value == decimal_value(s@.take(i as int)),
            value < pow10(i as int),
        decreases n - i,
    {
        let c = s[i];
        if !('0' <= c && c <= '9') {
            return None;
        }
        let d: u32 = (c as u32) - ('0' as u32);
        proof {
            assert(s@.take(i + 1).drop_last() =~= s@.take(i as int));
            assert(s@.take(i + 1).last() == c);
            lemma_pow10_bound(i as int);
            lemma_pow10_bound(i + 1);
        }
        value = value * 10 + d;
        i = i + 1;
    }
    assert(s@.take(n as int) =~= s@);
    if value > max {
        None
    } else {
        Some(value)
    }
}

/// Ten to the power `k`.
pub open spec fn pow10(k: int) -> int
    decreases k,
{
    if k <= 0 {
        1
    } else {
        10 * pow10(k - 1)
    }
}

/// Powers of ten up to the ninth fit well within 32 bits.
proof fn lemma_pow10_bound(k: int)
    requires
        0 <= k <= 9,
    ensures
        pow10(k) <= 1_000_000_000,
        pow10(k + 1) == 10 * pow10(k),
    decreases k,
{
    reveal_with_fuel(pow10, 11);
}

/// Reads a dotted quad.
pub fn read_ipv4(s: &[char]) -> (r: Option<u32>)
    ensures
        r == parse_ipv4(s@),
{
    let parts = split_chars(s, '.');
    if parts.len() != 4 {
        return None;
    }
    assert(views(parts@)[0] == parts@[0]@);
    assert(views(parts@)[1] == parts@[1]@);
    assert(views(parts@)[2] == parts@[2]@);
    assert(views(parts@)[3] == parts@[3]@);
    let a = read_number(parts[0].as_slice(), 3, 255);
    let b = read_number(parts[1].as_slice(), 3, 255);
    let c = read_number(parts[2].as_slice(), 3, 255);
    let d = read_number(parts[3].as_slice(), 3, 255);
    match (a, b, c, d) {
        (Some(a), Some(b), Some(c), Some(d)) => {
            assert(a <= 255 && b <= 255 && c <= 255 && d <= 255);
            Some(((a * 256 + b) * 256 + c) * 256 + d)
        },
        _ => None,
    }
}

/// Reads a group of one to four hexadecimal digits.
pub fn read_group(s: &[char]) -> (r: Option<u16>)
    ensures
        r is Some <==> parse_group(s@) is Some,
        r matches Some(g) ==> g as int == parse_group(s@)->0,
{
    let n = s.len();
    if n == 0 || n > 4 {
        return None;
    }
    let mut value: u32 = 0;
    let mut i: usize = 0;
    while i < n
        invariant
            i <= n,
            n == s.len(),
            n <= 4,
            forall|j: int| 0 <= j < i ==> is_hex_digit(#[trigger] s@[j]),
            value == hex_number(s@.take(i as int)),
            value < pow16(i as int),
        decreases n - i,
    {
        let c = s[i];
        let d: u32 = if '0' <= c && c <= '9' {
            (c as u32) - ('0' as u32)
        } else if 'a' <= c && c <= 'f' {
            (c as u32) - ('a' as u32) + 10
        } else if 'A' <= c && c <= 'F' {
            (c as u32) - ('A' as u32) + 10
        } else {
            return None;
        };
        proof {
            assert(s@.take(i + 1).drop_last() =~= s@.take(i as int));
            assert(s@.take(i + 1).last() == c);
            lemma_pow16(i as int);
            lemma_pow16(i + 1);
        }
        value = value * 16 + d;
        i = i + 1;
    }
    proof {
        assert(s@.take(n as int) =~= s@);
        lemma_pow16(n as int);
    }
    Some(value as u16)
}

/// Sixteen to the power `k`.
pub open spec fn pow16(k: int) -> int
    decreases k,
{
    if k <= 0 {
        1
    } else {
        16 * pow16(k - 1)
    }
}

/// Powers of sixteen up to the fourth fit in sixteen bits and a bit.
proof fn lemma_pow16(k: int)
    requires
        0 <= k <= 4,
    ensures
        pow16(k) <= 65536,
        pow16(k + 1) == 16 * pow16(k),
{
    reveal_with_fuel(pow16, 6);
}

/// 65536 to the power `k`.
pub open spec fn pow65536(k: int) -> int
    decreases k,
{
    if k <= 0 {
        1
    } else {
        65536 * pow65536(k - 1)
    }
}

/// Eight groups fit in 128 bits.
proof fn lemma_pow65536(k: int)
    requires
        0 <= k <= 8,
    ensures
        pow65536(k) <= 0x1_0000_0000_0000_0000_0000_0000_0000_0000,
        pow65536(k + 1) == 65536 * pow65536(k),
        pow65536(k) >= 1,
{
    reveal_with_fuel(pow65536, 10);
}

/// The views of a list of groups.
pub open spec fn group_values(groups: Seq<u16>) -> Seq<int> {
    groups.map_values(|g: u16| g as int)
}

/// Finds the first `::`.
fn find_double_colon(s: &[char]) -> (at: usize)
    ensures
        at == double_colon_from(s@, 0),
        at <= s.len(),
        at < s.len() ==> at + 2 <= s.len(),
{
    let n = s.len();
    let mut i: usize = 0;
    while n - i > 1
        invariant
            i <= n,
            n == s.len(),
            double_colon_from(s@, 0) == double_colon_from(s@, i as int),
        decreases n - i,
    {
        if s[i] == ':' && s[i + 1] == ':' {
            return i;
        }
        i = i + 1;
    }
    n
}

/// Reads the groups of a list of parts, each part a group.
fn read_groups(parts: &Vec<Vec<char>>, count: usize) -> (r: Option<Vec<u16>>)
    requires
        count <= parts.len(),
    ensures
        r is Some <==> parse_groups(views(parts@).take(count as int)) is Some,
        r matches Some(groups) ==> group_values(groups@) == parse_groups(
            views(parts@).take(count as int),
        )->0 && groups.len() == count,
{
    let ghost all = views(parts@);
    let mut groups: Vec<u16> = Vec::new();
    let mut i: usize = 0;
    proof {
        assert(all.take(0) =~= Seq::empty());
        assert(group_values(groups@) =~= Seq::empty());
    }
    while i < count
        invariant
            i <= count <= parts.len(),
            all == views(parts@),
            groups.len() == i,
            parse_groups(all.take(i as int)) == Some(group_values(groups@)),
        decreases count - i,
    {
        proof {
            assert(all.take(i + 1).drop_last() =~= all.take(i as int));
            assert(all.take(i + 1).last() == parts@[i as int]@);
        }
        match read_group(parts[i].as_slice()) {
            Some(g) => {
                let ghost before = groups@;
                groups.push(g);
                assert(group_values(groups@) =~= group_values(before).push(g as int));
            },
            None => {
                proof {
                    if parse_groups(all.take(count as int)) is Some {
                        lemma_groups_prefix(all.take(count as int), i + 1);
                        assert(all.take(count as int).take(i + 1) =~= all.take(i + 1));
                    }
                }
                return None;
            },
        }
        i = i + 1;
    }
    Some(groups)
}

/// Where the parts denote groups, so does every prefix of them.
proof fn lemma_groups_prefix(parts: Seq<Seq<char>>, n: int)
    requires
        0 <= n <= parts.len(),
        parse_groups(parts) is Some,
    ensures
        parse_groups(parts.take(n)) is Some,
    decreases parts.len(),
{
    if n < parts.len() {
        lemma_groups_prefix(parts.drop_last(), n);
        assert(parts.drop_last().take(n) =~= parts.take(n));
    } else {
        assert(parts.take(n) =~= parts);
    }
}

/// Reads the groups of a colon-separated text, the last of which may be a
/// dotted quad where `quad` is set.
fn read_run(s: &[char], quad: bool) -> (r: Option<Vec<u16>>)
    ensures
        r is Some <==> parse_run(s@, quad) is Some,
        r matches Some(groups) ==> group_values(groups@) == parse_run(s@, quad)->0,
{
    if s.len() == 0 {
        let groups: Vec<u16> = Vec::new();
        assert(group_values(groups@) =~= Seq::empty());
        return Some(groups);
    }
    let parts = split_chars(s, ':');
    proof {
        crate::text::lemma_pieces_nonempty(s@, ':', 0);
    }
    let ghost all = views(parts@);
    let last = parts.len() - 1;
    assert(all.take(last as int) =~= all.drop_last());
    assert(all.last() == parts@[last as int]@);
    let mut groups = match read_groups(&parts, last) {
        Some(groups) => groups,
        None => {
            return None;
        },
    };
    let ghost init = groups@;
    match read_group(parts[last].as_slice()) {
        Some(g) => {
            groups.push(g);
            assert(group_values(groups@) =~= group_values(init).push(g as int));
            Some(groups)
        },
        None => {
            if !quad {
                return None;
            }
            match read_ipv4(parts[last].as_slice()) {
                Some(v) => {
                    let high: u16 = (v / 65536) as u16;
                    let low: u16 = (v % 65536) as u16;
                    groups.push(high);
                    groups.push(low);
                    assert(group_values(groups@) =~= group_values(init).push(high as int).push(
                        low as int,
                    ));
                    Some(groups)
                },
                None => None,
            }
        },
    }
}

/// Every group read from text is below 65536, so `n` of them denote a
/// number below 65536 to the `n`.
proof fn lemma_groups_value_bound(groups: Seq<u16>)
    ensures
        0 <= groups_value(group_values(groups)) < pow65536(groups.len() as int),
    decreases groups.len(),
{
    if groups.len() > 0 {
        lemma_groups_value_bound(groups.drop_last());
        assert(group_values(groups).drop_last() =~= group_values(groups.drop_last()));
        assert(pow65536(groups.len() as int) == 65536 * pow65536(groups.len() - 1));
    }
}

/// Packs eight groups into a 128-bit value.
fn pack_groups(groups: &Vec<u16>) -> (value: u128)
    requires
        groups.len() == 8,
    ensures
        value == groups_value(group_values(groups@)),
{
    let ghost all = group_values(groups@);
    let mut value: u128 = 0;
    let mut i: usize = 0;
    proof {
        assert(all.take(0) =~= Seq::empty());
    }
    while i < 8
        invariant
            i <= 8,
            groups.len() == 8,
            all == group_values(groups@),
            value == groups_value(all.take(i as int)),
            value < pow65536(i as int),
        decreases 8 - i,
    {
        proof {
            assert(all.take(i + 1).drop_last() =~= all.take(i as int));
            assert(all.take(i + 1).last() == groups@[i as int] as int);
            lemma_pow65536(i as int);
            lemma_pow65536(i + 1);
        }
        value = value * 65536 + groups[i] as u128;
        i = i + 1;
    }
    assert(all.take(8) =~= all);
    value
}

/// Reads an IPv6 address.
pub fn read_ipv6(s: &[char]) -> (r: Option<u128>)
    ensures
        r == parse_ipv6(s@),
{
    let n = s.len();
    let gap = find_double_colon(s);
    if gap >= n {
        match read_run(s, true) {
            Some(groups) => {
                if groups.len() == 8 {
                    proof {
                        lemma_groups_value_bound(groups@);
                        lemma_pow65536(8);
                    }
                    Some(pack_groups(&groups))
                } else {
                    None
                }
            },
            None => None,
        }
    } else {
        let head_text = crate::text::copy_range(s, 0, gap);
        let tail_text = crate::text::copy_range(s, gap + 2, n);
        let head = read_run(head_text.as_slice(), false);
        let tail = read_run(tail_text.as_slice(), true);
        match (head, tail) {
            (Some(head), Some(tail)) => {
                if head.len() <= 7 && tail.len() <= 7 - head.len() {
                    let fill: usize = 8 - head.len() - tail.len();
                    let mut groups: Vec<u16> = Vec::new();
                    let ghost h = group_values(head@);
                    let ghost t = group_values(tail@);
                    let mut i: usize = 0;
                    while i < head.len()
                        invariant
                            i <= head.len(),
                            groups@ == head@.take(i as int),
                        decreases head.len() - i,
                    {
                        groups.push(head[i]);
                        assert(head@.take(i + 1) =~= head@.take(i as int).push(head@[i as int]));
                        i = i + 1;
                    }
                    assert(head@.take(head.len() as int) =~= head@);
                    let mut j: usize = 0;
                    while j < fill
                        invariant
                            j <= fill,
                            group_values(groups@) == h + zero_groups(j as int),
                        decreases fill - j,
                    {
                        let ghost before = groups@;
                        groups.push(0);
                        assert(group_values(groups@) =~= group_values(before).push(0int));
                        assert(h + zero_groups(j + 1) =~= (h + zero_groups(j as int)).push(0int));
                        j = j + 1;
                    }
                    let mut k: usize = 0;
                    while k < tail.len()
                        invariant
                            k <= tail.len(),
                            t == group_values(tail@),
                            group_values(groups@) == h + zero_groups(fill as int) + t.take(
                                k as int,
                            ),
                        decreases tail.len() - k,
                    {
                        let ghost before = groups@;
                        groups.push(tail[k]);
                        assert(group_values(groups@) =~= group_values(before).push(
                            tail@[k as int] as int,
                        ));
                        assert(t.take(k + 1) =~= t.take(k as int).push(t[k as int]));
                        assert(h + zero_groups(fill as int) + t.take(k + 1) =~= (h + zero_groups(
                            fill as int,
                        ) + t.take(k as int)).push(t[k as int]));
                        k = k + 1;
                    }
                    assert(t.take(tail.len() as int) =~= t);
                    proof {
                        lemma_groups_value_bound(groups@);
                        lemma_pow65536(8);
                    }
                    assert(groups.len() == 8) by {
                        assert(group_values(groups@).len() == groups@.len());
                    }
                    Some(pack_groups(&groups))
                } else {
                    None
                }
            },
            _ => None,
        }
    }
}

/// Reads an address: a dotted quad, or else an IPv6 address.
pub fn read_ip(s: &[char]) -> (r: Option<IpAddress>)
    ensures
        r == parse_ip(s@),
{
    match read_ipv4(s) {
        Some(v) => Some(IpAddress::V4(v)),
        None => match read_ipv6(s) {
            Some(v) => Some(IpAddress::V6(v)),
            None => None,
        },
    }
}

/// Reads a network: a bare address or `address/length`.
pub fn read_network(s: &[char]) -> (r: Option<Network>)
    ensures
        r == parse_network(s@),
        r matches Some(net) ==> net.wf(),
{
    let parts = split_chars(s, '/');
    if parts.len() == 1 {
        match read_ip(s) {
            Some(IpAddress::V4(v)) => Some(Network { addr: IpAddress::V4(v), prefix: 32 }),
            Some(IpAddress::V6(v)) => Some(Network { addr: IpAddress::V6(v), prefix: 128 }),
            None => None,
        }
    } else if parts.len() == 2 {
        assert(views(parts@)[0] == parts@[0]@);
        assert(views(parts@)[1] == parts@[1]@);
        let addr = read_ip(parts[0].as_slice());
        let len = read_number(parts[1].as_slice(), 3, 128);
        match (addr, len) {
            (Some(IpAddress::V4(v)), Some(len)) => {
                if len <= 32 {
                    Some(Network { addr: IpAddress::V4(v), prefix: len as u8 })
                } else {
                    None
                }
            },
            (Some(IpAddress::V6(v)), Some(len)) => {
                Some(Network { addr: IpAddress::V6(v), prefix: len as u8 })
            },
            _ => None,
        }
    } else {
        None
    }
}

} // verus!
