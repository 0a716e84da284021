//! The address pool: the hosts of a network block, and the choice of a free
//! one.
//!
//! A block is written `a.b.c.d/n`: four numerals of at most 255 each, a
//! slash, and a numeral of at most 32. The block holds the `2^(32 - n)`
//! addresses from `a.b.c.d` upwards. Where it holds more than two, the first
//! (the network address) and the last (the broadcast address) are no hosts.

use vstd::prelude::*;
use vstd::string::*;
use vstd::utf8::is_ascii_chars;
use vstd::arithmetic::power2::{
    pow2, lemma2_to64, lemma_pow2_unfold, lemma_pow2_strictly_increases,
};
use crate::text::{
    numeral_value, numeral_up_to, decimal_text, first_index, fields, lemma_first_index_is,
    lemma_decimal_text_value, lemma_decimal_text_lacks, lemma_fields_after_first_piece,
    lemma_fields_of_one_piece, ascii_at, field_bounds, read_numeral, append_decimal,
};

verus! {

/// Why a text is no block.
#[derive(Clone, Copy, PartialEq, Eq, Debug, Structural)]
pub enum CidrError {
    /// The text holds a character outside ASCII, or no slash.
    InvalidFormat,
    /// What stands before the first slash is not four numerals of at most
    /// 255 each, separated by dots.
    InvalidAddress,
    /// What stands after the first slash is not a numeral of at most 32.
    InvalidPrefix,
    /// The block would reach past 255.255.255.255.
    AddressOverflow,
}

/// Why a text is no block, in words.
pub open spec fn cidr_error_text(e: CidrError) -> Seq<char> {
    match e {
        CidrError::InvalidFormat => "Invalid CIDR format"@,
        CidrError::InvalidAddress => "Invalid CIDR address"@,
        CidrError::InvalidPrefix => "Invalid CIDR prefix"@,
        CidrError::AddressOverflow => "IP address overflow"@,
    }
}

impl CidrError {
    /// Why a text is no block, in words.
    pub fn message(self) -> (r: &'static str)
        ensures
            r@ == cidr_error_text(self),
    {
        match self {
            CidrError::InvalidFormat => "Invalid CIDR format",
            CidrError::InvalidAddress => "Invalid CIDR address",
            CidrError::InvalidPrefix => "Invalid CIDR prefix",
            CidrError::AddressOverflow => "IP address overflow",
        }
    }
}

/// Why no address was handed out.
#[derive(Clone, Copy, PartialEq, Eq, Debug, Structural)]
pub enum AllocateError {
    /// The configured block is no block.
    Cidr(CidrError),
    /// Every host of the block is in use.
    PoolExhausted,
}

/// A block as numbers: its first address, the length of its prefix, and the
/// prefix as it was written.
pub struct CidrSpec {
    pub base: nat,
    pub prefix_len: nat,
    pub prefix_text: Seq<char>,
}

/// A block that was read from a text.
pub struct CidrBlock {
    pub base: u32,
    pub prefix_len: u8,
    pub prefix: String,
}

impl View for CidrBlock {
    type V = CidrSpec;

    open spec fn view(&self) -> CidrSpec {
        CidrSpec {
            base: self.base as nat,
            prefix_len: self.prefix_len as nat,
            prefix_text: self.prefix@,
        }
    }
}

/// The number of an address written as four numerals separated by dots, the
/// first numeral counting most.
pub open spec fn address_value(s: Seq<char>) -> Option<nat> {
    let f = fields(s, '.');
    if f.len() == 4 && numeral_up_to(f[0], 255) is Some && numeral_up_to(f[1], 255) is Some
        && numeral_up_to(f[2], 255) is Some && numeral_up_to(f[3], 255) is Some {
        Some(
            numeral_value(f[0]) * 16777216 + numeral_value(f[1]) * 65536 + numeral_value(f[2]) * 256
                + numeral_value(f[3]),
        )
    } else {
        None
    }
}

/// How many addresses a block with a prefix of `prefix_len` bits holds.
pub open spec fn block_size(prefix_len: nat) -> nat
    recommends
        prefix_len <= 32,
{
    pow2((32 - prefix_len) as nat)
}

/// The block that a text denotes, or why it denotes none. The reasons are
/// tried in the order in which `CidrError` lists them.
pub open spec fn cidr_block(s: Seq<char>) -> Result<CidrSpec, CidrError> {
    let slash = first_index(s, '/');
    if !is_ascii_chars(s) || !(0 <= slash < s.len()) {
        Err(CidrError::InvalidFormat)
    } else {
        match address_value(s.take(slash)) {
            None => Err(CidrError::InvalidAddress),
            Some(base) => match numeral_up_to(s.skip(slash + 1), 32) {
                None => Err(CidrError::InvalidPrefix),
                Some(n) => if base + block_size(n as nat) > 0x1_0000_0000 {
                    Err(CidrError::AddressOverflow)
                } else {
                    Ok(CidrSpec { base, prefix_len: n as nat, prefix_text: s.skip(slash + 1) })
                },
            },
        }
    }
}

/// How many hosts a block with a prefix of `prefix_len` bits has.
pub open spec fn host_count(prefix_len: nat) -> nat {
    if block_size(prefix_len) > 2 {
        (block_size(prefix_len) - 2) as nat
    } else {
        block_size(prefix_len)
    }
}

/// How far the first host lies above the first address of the block.
pub open spec fn first_host_offset(prefix_len: nat) -> nat {
    if block_size(prefix_len) > 2 {
        1
    } else {
        0
    }
}

/// The hosts of a block, in ascending order.
pub open spec fn host_addresses(base: nat, prefix_len: nat) -> Seq<nat> {
    Seq::new(host_count(prefix_len), |k: int| (base + first_host_offset(prefix_len) + k) as nat)
}

/// Four numbers in dotted form, each as its shortest numeral.
pub open spec fn dotted(a: nat, b: nat, c: nat, d: nat) -> Seq<char> {
    decimal_text(a) + seq!['.'] + decimal_text(b) + seq!['.'] + decimal_text(c) + seq!['.']
        + decimal_text(d)
}

/// An address in dotted form: its four digits to the base 256, the one
/// that counts most first.
pub open spec fn dotted_quad(address: nat) -> Seq<char> {
    dotted(address / 16777216, (address / 65536) % 256, (address / 256) % 256, address % 256)
}

/// An address as the pool names it: the dotted form, a slash, and the prefix
/// as the block was written with.
pub open spec fn host_text(address: nat, prefix_text: Seq<char>) -> Seq<char> {
    dotted_quad(address) + seq!['/'] + prefix_text
}

/// The hosts of a block as the pool names them, in ascending order.
pub open spec fn host_texts(block: CidrSpec) -> Seq<Seq<char>> {
    Seq::new(
        host_count(block.prefix_len),
        |k: int| host_text(host_addresses(block.base, block.prefix_len)[k], block.prefix_text),
    )
}

/// The name under which the gateway would be listed among the hosts.
pub open spec fn gateway_name(gateway: Seq<char>, prefix_text: Seq<char>) -> Seq<char> {
    gateway + seq!['/'] + prefix_text
}

/// The names that cannot be handed out: those in use, and the gateway's.
pub open spec fn taken_names(
    gateway: Seq<char>,
    prefix_text: Seq<char>,
    used: Seq<Seq<char>>,
) -> Set<Seq<char>> {
    used.to_set().insert(gateway_name(gateway, prefix_text))
}

/// The first of `hosts` that is not among `taken`.
pub open spec fn first_free(hosts: Seq<Seq<char>>, taken: Set<Seq<char>>) -> Option<Seq<char>>
    decreases hosts.len(),
{
    if hosts.len() == 0 {
        None
    } else if !taken.contains(hosts[0]) {
        Some(hosts[0])
    } else {
        first_free(hosts.drop_first(), taken)
    }
}

/// Every host before position `k` is taken.
pub open spec fn all_taken_before(hosts: Seq<Seq<char>>, taken: Set<Seq<char>>, k: int) -> bool {
    forall|j: int| 0 <= j < k ==> taken.contains(#[trigger] hosts[j])
}

/// How many of `hosts` are not among `taken`.
pub open spec fn free_count(hosts: Seq<Seq<char>>, taken: Set<Seq<char>>) -> nat
    decreases hosts.len(),
{
    if hosts.len() == 0 {
        0
    } else if taken.contains(hosts.last()) {
        free_count(hosts.drop_last(), taken)
    } else {
        free_count(hosts.drop_last(), taken) + 1
    }
}

/// How many names the pool can still hand out for a block, a gateway and
/// the names in use: none where the block is no block.
pub open spec fn available(cidr: Seq<char>, gateway: Seq<char>, used: Seq<Seq<char>>) -> nat {
    match cidr_block(cidr) {
        Ok(block) => free_count(host_texts(block), taken_names(gateway, block.prefix_text, used)),
        Err(_) => 0,
    }
}

/// What the pool hands out for a block, a gateway and the names in use.
pub open spec fn allocation(cidr: Seq<char>, gateway: Seq<char>, used: Seq<Seq<char>>) -> Result<
    Seq<char>,
    AllocateError,
> {
    match cidr_block(cidr) {
        Err(e) => Err(AllocateError::Cidr(e)),
        Ok(block) => match first_free(
            host_texts(block),
            taken_names(gateway, block.prefix_text, used),
        ) {
            Some(name) => Ok(name),
            None => Err(AllocateError::PoolExhausted),
        },
    }
}

/// `2^(32 - prefix_len)`, by doubling.
fn block_size_of(prefix_len: u8) -> (size: u64)
    requires
        prefix_len <= 32,
    ensures
        size == block_size(prefix_len as nat),
        1 <= size <= 0x1_0000_0000,
{
    let bits: u8 = 32 - prefix_len;
    let mut size: u64 = 1;
    let mut k: u8 = 0;
    proof {
        lemma2_to64();
    }
    while k < bits
        invariant
            k <= bits <= 32,
            size == pow2(k as nat),
            1 <= size <= 0x1_0000_0000,
            k < 32 ==> size <= 0x8000_0000,
        decreases bits - k,
    {
        proof {
            lemma_pow2_unfold((k + 1) as nat);
            lemma2_to64();
            if k + 1 < 31 {
                lemma_pow2_strictly_increases((k + 1) as nat, 31);
            }
        }
        size = size * 2;
        k = k + 1;
    }
    size
}

/// How far the first host of a block lies above its first address, and how
/// many hosts there are.
fn host_span(prefix_len: u8) -> (r: (u64, u64))
    requires
        prefix_len <= 32,
    ensures
        r.0 == first_host_offset(prefix_len as nat),
        r.1 == host_count(prefix_len as nat),
        r.0 + r.1 <= block_size(prefix_len as nat),
{
    let size: u64 = block_size_of(prefix_len);
    if size > 2 {
        (1, size - 2)
    } else {
        (0, size)
    }
}

/// Reads a block from its text.
pub fn parse_cidr(cidr: &str) -> (r: Result<CidrBlock, CidrError>)
    ensures
        match r {
            Ok(block) => cidr_block(cidr@) == Ok::<CidrSpec, CidrError>(block@),
            Err(e) => cidr_block(cidr@) == Err::<CidrSpec, CidrError>(e),
        },
{
    if !cidr.is_ascii() {
        return Err(CidrError::InvalidFormat);
    }
    let len: usize = cidr.unicode_len();
    let mut slash: usize = 0;
    while slash < len && ascii_at(cidr, slash) != '/'
        invariant
            is_ascii(cidr),
            slash <= len == cidr@.len(),
            forall|j: int| 0 <= j < slash ==> cidr@[j] != '/',
        decreases len - slash,
    {
        slash = slash + 1;
    }
    proof {
        lemma_first_index_is(cidr@, '/', slash as int);
    }
    if slash >= len {
        return Err(CidrError::InvalidFormat);
    }
    let ghost head = cidr@.take(slash as int);
    let ghost tail = cidr@.skip(slash + 1);
    proof {
        assert(head =~= cidr@.subrange(0, slash as int));
        assert(tail =~= cidr@.subrange(slash + 1, len as int));
    }
    let bounds = field_bounds(cidr, 0, slash, '.');
    if bounds.len() != 4 {
        return Err(CidrError::InvalidAddress);
    }
    let a = read_numeral(cidr, bounds[0].0, bounds[0].1, 255);
    let b = read_numeral(cidr, bounds[1].0, bounds[1].1, 255);
    let c = read_numeral(cidr, bounds[2].0, bounds[2].1, 255);
    let d = read_numeral(cidr, bounds[3].0, bounds[3].1, 255);
    let base: u32 = match (a, b, c, d) {
        (Some(a), Some(b), Some(c), Some(d)) => a * 16777216 + b * 65536 + c * 256 + d,
        _ => {
            return Err(CidrError::InvalidAddress);
        },
    };
    let prefix_len: u8 = match read_numeral(cidr, slash + 1, len, 32) {
        Some(n) => n as u8,
        None => {
            return Err(CidrError::InvalidPrefix);
        },
    };
    let size: u64 = block_size_of(prefix_len);
    if base as u64 + size > 0x1_0000_0000 {
        return Err(CidrError::AddressOverflow);
    }
    let prefix = String::from_str(cidr.substring_ascii(slash + 1, len));
    Ok(CidrBlock { base, prefix_len, prefix })
}

/// The name of an address in the pool.
pub fn address_text(address: u32, prefix: &str) -> (r: String)
    ensures
        r@ == host_text(address as nat, prefix@),
{
    proof {
        reveal_strlit(".");
        reveal_strlit("/");
    }
    let mut out = String::new();
    append_decimal(&mut out, (address / 16777216) as u64);
    out.append(".");
    append_decimal(&mut out, ((address / 65536) % 256) as u64);
    out.append(".");
    append_decimal(&mut out, ((address / 256) % 256) as u64);
    out.append(".");
    append_decimal(&mut out, (address % 256) as u64);
    out.append("/");
    out.append(prefix);
    proof {
        assert(out@ =~= host_text(address as nat, prefix@));
    }
    out
}

/// Lists the hosts of a block in ascending order, each as the pool names it,
/// and gives the prefix as the block was written with.
pub fn cidr_to_list(cidr: &str) -> (r: Result<(Vec<String>, String), CidrError>)
    ensures
        match r {
            Ok((hosts, prefix)) => {
                &&& cidr_block(cidr@) matches Ok(block)
                &&& prefix@ == block.prefix_text
                &&& hosts.deep_view() == host_texts(block)
            },
            Err(e) => cidr_block(cidr@) == Err::<CidrSpec, CidrError>(e),
        },
{
    let block = match parse_cidr(cidr) {
        Ok(block) => block,
        Err(e) => {
            return Err(e);
        },
    };
    let (first, count): (u64, u64) = host_span(block.prefix_len);
    let mut hosts: Vec<String> = Vec::new();
    let mut k: u64 = 0;
    while k < count
        invariant
            k <= count,
            count == host_count(block@.prefix_len),
            first == first_host_offset(block@.prefix_len),
            block@.base + first + count <= 0x1_0000_0000,
            hosts@.len() == k,
            forall|j: int|
                0 <= j < k ==> (#[trigger] hosts@[j])@ == host_text(
                    (block@.base + first + j) as nat,
                    block@.prefix_text,
                ),
        decreases count - k,
    {
        let address: u64 = block.base as u64 + first + k;
        let name = address_text(address as u32, block.prefix.as_str());
        hosts.push(name);
        k = k + 1;
    }
    proof {
        assert(hosts.deep_view() =~= host_texts(block@));
    }
    Ok((hosts, block.prefix))
}

/// Whether `name` is in `used`.
fn is_used(used: &Vec<String>, name: &String) -> (r: bool)
    ensures
        r == used.deep_view().contains(name@),
{
    let mut i: usize = 0;
    while i < used.len()
        invariant
            i <= used@.len(),
            forall|j: int| 0 <= j < i ==> used.deep_view()[j] != name@,
        decreases used@.len() - i,
    {
        if used[i] == *name {
            proof {
                assert(used.deep_view()[i as int] == name@);
            }
            return true;
        }
        i = i + 1;
    }
    false
}

/// Hands out the first host of the block that is neither in use nor the
/// gateway. Nothing is recorded: the caller adds the name to those in use.
/// The hosts are gone through one by one, and never listed as a whole.
pub fn allocate(cidr: &str, gateway: &str, used: &Vec<String>) -> (r: Result<String, AllocateError>)
    ensures
        match r {
            Ok(name) => allocation(cidr@, gateway@, used.deep_view()) == Ok::<
                Seq<char>,
                AllocateError,
            >(name@),
            Err(e) => allocation(cidr@, gateway@, used.deep_view()) == Err::<
                Seq<char>,
                AllocateError,
            >(e),
        },
        r matches Ok(name) ==> {
            &&& !used.deep_view().contains(name@)
            &&& cidr_block(cidr@) matches Ok(block)
            &&& name@ != gateway_name(gateway@, block.prefix_text)
            &&& host_texts(block).contains(name@)
        },
{
    let block = match parse_cidr(cidr) {
        Ok(block) => block,
        Err(e) => {
            return Err(AllocateError::Cidr(e));
        },
    };
    proof {
        reveal_strlit("/");
    }
    let mut reserved = String::from_str(gateway);
    reserved.append("/");
    reserved.append(block.prefix.as_str());
    let (first, count): (u64, u64) = host_span(block.prefix_len);
    let ghost hosts = host_texts(block@);
    let ghost taken = taken_names(gateway@, block@.prefix_text, used.deep_view());
    proof {
        assert(reserved@ =~= gateway_name(gateway@, block@.prefix_text));
    }
    let mut k: u64 = 0;
    while k < count
        invariant
            k <= count,
            count == host_count(block@.prefix_len),
            first == first_host_offset(block@.prefix_len),
            block@.base + first + count <= 0x1_0000_0000,
            cidr_block(cidr@) == Ok::<CidrSpec, CidrError>(block@),
            hosts == host_texts(block@),
            taken == taken_names(gateway@, block@.prefix_text, used.deep_view()),
            reserved@ == gateway_name(gateway@, block@.prefix_text),
            all_taken_before(hosts, taken, k as int),
        decreases count - k,
    {
        let address: u64 = block.base as u64 + first + k;
        let name = address_text(address as u32, block.prefix.as_str());
        proof {
            assert(hosts[k as int] == name@);
        }
        if !is_used(used, &name) && name != reserved {
            proof {
                assert(!taken.contains(hosts[k as int]));
                lemma_first_free_found(hosts, taken, k as int);
            }
            return Ok(name);
        }
        k = k + 1;
    }
    proof {
        lemma_first_free_none(hosts, taken);
    }
    Err(AllocateError::PoolExhausted)
}

/// Where every host before position `k` is taken and the one at `k` is not,
/// the one at `k` is the first free host.
pub proof fn lemma_first_free_found(hosts: Seq<Seq<char>>, taken: Set<Seq<char>>, k: int)
    requires
        0 <= k < hosts.len(),
        all_taken_before(hosts, taken, k),
        !taken.contains(hosts[k]),
    ensures
        first_free(hosts, taken) == Some(hosts[k]),
    decreases k,
{
    if k > 0 {
        let rest = hosts.drop_first();
        assert(taken.contains(hosts[0]));
        assert forall|j: int| 0 <= j < k - 1 implies taken.contains(#[trigger] rest[j]) by {
            assert(rest[j] == hosts[j + 1]);
        }
        lemma_first_free_found(rest, taken, k - 1);
    }
}

/// No host is free exactly where every host is taken.
pub proof fn lemma_first_free_none(hosts: Seq<Seq<char>>, taken: Set<Seq<char>>)
    ensures
        first_free(hosts, taken) is None <==> all_taken_before(hosts, taken, hosts.len() as int),
    decreases hosts.len(),
{
    if hosts.len() > 0 {
        let rest = hosts.drop_first();
        lemma_first_free_none(rest, taken);
        if taken.contains(hosts[0]) {
            if all_taken_before(rest, taken, rest.len() as int) {
                assert forall|j: int| 0 <= j < hosts.len() implies taken.contains(
                    #[trigger] hosts[j],
                ) by {
                    if j > 0 {
                        assert(hosts[j] == rest[j - 1]);
                    }
                }
            }
            if all_taken_before(hosts, taken, hosts.len() as int) {
                assert forall|j: int| 0 <= j < rest.len() implies taken.contains(
                    #[trigger] rest[j],
                ) by {
                    assert(rest[j] == hosts[j + 1]);
                }
            }
        } else {
            assert(!taken.contains(hosts[0]));
        }
    }
}

/// The host that is handed out stands at some position of the list, is not
/// taken, and every host before it is taken.
pub proof fn lemma_first_free_some(hosts: Seq<Seq<char>>, taken: Set<Seq<char>>) -> (k: int)
    requires
        first_free(hosts, taken) is Some,
    ensures
        0 <= k < hosts.len(),
        first_free(hosts, taken) == Some(hosts[k]),
        !taken.contains(hosts[k]),
        all_taken_before(hosts, taken, k),
    decreases hosts.len(),
{
    if !taken.contains(hosts[0]) {
        0
    } else {
        let rest = hosts.drop_first();
        let k = lemma_first_free_some(rest, taken);
        assert forall|j: int| 0 <= j < k + 1 implies taken.contains(#[trigger] hosts[j]) by {
            if j > 0 {
                assert(hosts[j] == rest[j - 1]);
            }
        }
        k + 1
    }
}

/// With a prefix of at most 30 bits, the hosts are the addresses of the
/// block without its first, the network address, and its last, the
/// broadcast address: two fewer than the block holds, in ascending order.
pub proof fn lemma_hosts_exclude_network_and_broadcast(base: nat, prefix_len: nat)
    requires
        prefix_len <= 30,
    ensures
        host_addresses(base, prefix_len).len() == pow2((32 - prefix_len) as nat) - 2,
        forall|a: nat|
            host_addresses(base, prefix_len).contains(a) <==> base < a < base + block_size(
                prefix_len,
            ) - 1,
        !host_addresses(base, prefix_len).contains(base),
        !host_addresses(base, prefix_len).contains((base + block_size(prefix_len) - 1) as nat),
        forall|i: int, j: int|
            0 <= i < j < host_addresses(base, prefix_len).len() ==> host_addresses(
                base,
                prefix_len,
            )[i] < host_addresses(base, prefix_len)[j],
{
    let bits = (32 - prefix_len) as nat;
    lemma2_to64();
    if bits > 2 {
        lemma_pow2_strictly_increases(2, bits);
    }
    let hosts = host_addresses(base, prefix_len);
    let size = block_size(prefix_len);
    assert forall|a: nat| hosts.contains(a) <==> base < a < base + size - 1 by {
        if base < a < base + size - 1 {
            assert(hosts[a - base - 1] == a);
        }
    }
}

/// With a prefix of 31 or 32 bits, every address of the block is a host.
pub proof fn lemma_small_blocks_keep_every_address(base: nat, prefix_len: nat)
    requires
        prefix_len == 31 || prefix_len == 32,
    ensures
        host_addresses(base, prefix_len).len() == block_size(prefix_len),
        block_size(prefix_len) == 33 - prefix_len,
        forall|a: nat|
            host_addresses(base, prefix_len).contains(a) <==> base <= a < base + block_size(
                prefix_len,
            ),
{
    lemma2_to64();
    let hosts = host_addresses(base, prefix_len);
    let size = block_size(prefix_len);
    assert forall|a: nat| hosts.contains(a) <==> base <= a < base + size by {
        if base <= a < base + size {
            assert(hosts[a - base] == a);
        }
    }
}

/// A name that the pool hands out is a host of the block, is not in use,
/// and is not the gateway's.
pub proof fn lemma_allocation_is_free(cidr: Seq<char>, gateway: Seq<char>, used: Seq<Seq<char>>)
    requires
        allocation(cidr, gateway, used) is Ok,
    ensures
        host_texts(cidr_block(cidr)->Ok_0).contains(allocation(cidr, gateway, used)->Ok_0),
        !used.contains(allocation(cidr, gateway, used)->Ok_0),
        allocation(cidr, gateway, used)->Ok_0 != gateway_name(
            gateway,
            (cidr_block(cidr)->Ok_0).prefix_text,
        ),
{
    let block = cidr_block(cidr)->Ok_0;
    let taken = taken_names(gateway, block.prefix_text, used);
    let k = lemma_first_free_some(host_texts(block), taken);
}

/// Once a name that was handed out is added to those in use, the pool hands
/// out a name that is neither that one nor any other in use, or finds the
/// pool exhausted.
pub proof fn lemma_allocation_after_recording(
    cidr: Seq<char>,
    gateway: Seq<char>,
    used: Seq<Seq<char>>,
)
    requires
        allocation(cidr, gateway, used) is Ok,
    ensures
        match allocation(cidr, gateway, used.push(allocation(cidr, gateway, used)->Ok_0)) {
            Ok(next) => next != allocation(cidr, gateway, used)->Ok_0 && !used.contains(next),
            Err(e) => e == AllocateError::PoolExhausted,
        },
{
    let name = allocation(cidr, gateway, used)->Ok_0;
    let grown = used.push(name);
    if allocation(cidr, gateway, grown) is Ok {
        lemma_allocation_is_free(cidr, gateway, grown);
        let next = allocation(cidr, gateway, grown)->Ok_0;
        assert(grown[used.len() as int] == name);
        assert forall|j: int| 0 <= j < used.len() implies used[j] != next by {
            assert(grown[j] == used[j]);
        }
    }
}

/// The pool is exhausted exactly where every host of the block is in use or
/// is the gateway.
pub proof fn lemma_pool_exhausted(cidr: Seq<char>, gateway: Seq<char>, used: Seq<Seq<char>>)
    requires
        cidr_block(cidr) is Ok,
    ensures
        allocation(cidr, gateway, used) == Err::<Seq<char>, AllocateError>(
            AllocateError::PoolExhausted,
        ) <==> forall|k: int|
            0 <= k < host_texts(cidr_block(cidr)->Ok_0).len() ==> used.contains(
                #[trigger] host_texts(cidr_block(cidr)->Ok_0)[k],
            ) || host_texts(cidr_block(cidr)->Ok_0)[k] == gateway_name(
                gateway,
                (cidr_block(cidr)->Ok_0).prefix_text,
            ),
{
    let block = cidr_block(cidr)->Ok_0;
    let hosts = host_texts(block);
    let taken = taken_names(gateway, block.prefix_text, used);
    lemma_first_free_none(hosts, taken);
    assert forall|k: int| 0 <= k < hosts.len() implies (taken.contains(#[trigger] hosts[k])
        <==> used.contains(hosts[k]) || hosts[k] == gateway_name(gateway, block.prefix_text)) by {}
}

/// Four numbers in dotted form are the four pieces between the dots, and no
/// slash stands among them.
proof fn lemma_dotted_fields(a: nat, b: nat, c: nat, d: nat)
    ensures
        fields(dotted(a, b, c, d), '.') == seq![
            decimal_text(a),
            decimal_text(b),
            decimal_text(c),
            decimal_text(d),
        ],
        forall|i: int| 0 <= i < dotted(a, b, c, d).len() ==> dotted(a, b, c, d)[i] != '/',
{
    let ta = decimal_text(a);
    let tb = decimal_text(b);
    let tc = decimal_text(c);
    let td = decimal_text(d);
    lemma_decimal_text_lacks(a, '.');
    lemma_decimal_text_lacks(b, '.');
    lemma_decimal_text_lacks(c, '.');
    lemma_decimal_text_lacks(d, '.');
    let tail2 = tc + seq!['.'] + td;
    let tail1 = tb + seq!['.'] + tail2;
    let whole = ta + seq!['.'] + tail1;
    assert(whole =~= dotted(a, b, c, d));
    lemma_fields_of_one_piece(td, '.');
    lemma_fields_after_first_piece(tc, '.', td);
    lemma_fields_after_first_piece(tb, '.', tail2);
    lemma_fields_after_first_piece(ta, '.', tail1);
    assert(fields(whole, '.') =~= seq![ta, tb, tc, td]);
    lemma_decimal_text_lacks(a, '/');
    lemma_decimal_text_lacks(b, '/');
    lemma_decimal_text_lacks(c, '/');
    lemma_decimal_text_lacks(d, '/');
}

/// An address below `2^32` is made of its four digits to the base 256.
proof fn lemma_octets_make_the_address(address: nat)
    requires
        address < 0x1_0000_0000,
    ensures
        address / 16777216 < 256,
        (address / 16777216) * 16777216 + ((address / 65536) % 256) * 65536 + ((address / 256)
            % 256) * 256 + address % 256 == address,
{
}

/// The dotted form of an address reads back as that address, and holds no
/// slash.
pub proof fn lemma_dotted_quad_reads_back(address: nat)
    requires
        address < 0x1_0000_0000,
    ensures
        address_value(dotted_quad(address)) == Some(address),
        forall|i: int| 0 <= i < dotted_quad(address).len() ==> dotted_quad(address)[i] != '/',
{
    let a = address / 16777216;
    let b = (address / 65536) % 256;
    let c = (address / 256) % 256;
    let d = address % 256;
    lemma_octets_make_the_address(address);
    lemma_dotted_fields(a, b, c, d);
    lemma_decimal_text_value(a);
    lemma_decimal_text_value(b);
    lemma_decimal_text_value(c);
    lemma_decimal_text_value(d);
}

/// Two addresses with the same name are the same address.
pub proof fn lemma_host_text_is_injective(a: nat, b: nat, prefix_text: Seq<char>)
    requires
        a < 0x1_0000_0000,
        b < 0x1_0000_0000,
        host_text(a, prefix_text) == host_text(b, prefix_text),
    ensures
        a == b,
{
    lemma_dotted_quad_reads_back(a);
    lemma_dotted_quad_reads_back(b);
    let s = host_text(a, prefix_text);
    lemma_first_index_is(s, '/', dotted_quad(a).len() as int);
    lemma_first_index_is(s, '/', dotted_quad(b).len() as int);
    assert(s.take(dotted_quad(a).len() as int) =~= dotted_quad(a));
    assert(s.take(dotted_quad(b).len() as int) =~= dotted_quad(b));
}

/// The hosts of a block have names that differ from each other: no name
/// stands twice in the list.
pub proof fn lemma_host_names_differ(block: CidrSpec, i: int, j: int)
    requires
        block.prefix_len <= 32,
        block.base + block_size(block.prefix_len) <= 0x1_0000_0000,
        0 <= i < j < host_texts(block).len(),
    ensures
        host_texts(block)[i] != host_texts(block)[j],
{
    let hosts = host_addresses(block.base, block.prefix_len);
    if host_texts(block)[i] == host_texts(block)[j] {
        lemma_host_text_is_injective(hosts[i], hosts[j], block.prefix_text);
    }
}

/// The name of a host of a block, read as a block of its own, begins at
/// that host and has the prefix of the block.
pub proof fn lemma_host_name_reads_back(cidr: Seq<char>, k: int)
    requires
        cidr_block(cidr) is Ok,
        0 <= k < host_texts(cidr_block(cidr)->Ok_0).len(),
    ensures
        ({
            let block = cidr_block(cidr)->Ok_0;
            let name = host_texts(block)[k];
            let slash = first_index(name, '/');
            &&& 0 <= slash < name.len()
            &&& address_value(name.take(slash)) == Some(
                host_addresses(block.base, block.prefix_len)[k],
            )
            &&& name.skip(slash + 1) == block.prefix_text
        }),
{
    let block = cidr_block(cidr)->Ok_0;
    let address = host_addresses(block.base, block.prefix_len)[k];
    let name = host_texts(block)[k];
    lemma_dotted_quad_reads_back(address);
    lemma_first_index_is(name, '/', dotted_quad(address).len() as int);
    assert(name.take(dotted_quad(address).len() as int) =~= dotted_quad(address));
    assert(name.skip(dotted_quad(address).len() as int + 1) =~= block.prefix_text);
}

/// None of the hosts is free exactly where every host is taken, and no more
/// are free than there are hosts.
pub proof fn lemma_free_count_zero(hosts: Seq<Seq<char>>, taken: Set<Seq<char>>)
    ensures
        free_count(hosts, taken) == 0 <==> all_taken_before(hosts, taken, hosts.len() as int),
        free_count(hosts, taken) <= hosts.len(),
    decreases hosts.len(),
{
    if hosts.len() > 0 {
        let rest = hosts.drop_last();
        lemma_free_count_zero(rest, taken);
        if all_taken_before(hosts, taken, hosts.len() as int) {
            assert(taken.contains(hosts[hosts.len() - 1]));
            assert forall|j: int| 0 <= j < rest.len() implies taken.contains(
                #[trigger] rest[j],
            ) by {
                assert(rest[j] == hosts[j]);
            }
        }
        if free_count(hosts, taken) == 0 {
            assert forall|j: int| 0 <= j < hosts.len() implies taken.contains(
                #[trigger] hosts[j],
            ) by {
                if j < rest.len() {
                    assert(hosts[j] == rest[j]);
                }
            }
        }
    }
}

/// Taking a name that is no host leaves as many hosts free as before.
pub proof fn lemma_taking_a_stranger(hosts: Seq<Seq<char>>, taken: Set<Seq<char>>, name: Seq<char>)
    requires
        !hosts.contains(name),
    ensures
        free_count(hosts, taken.insert(name)) == free_count(hosts, taken),
    decreases hosts.len(),
{
    if hosts.len() > 0 {
        let rest = hosts.drop_last();
        assert(hosts[hosts.len() - 1] != name);
        assert forall|j: int| 0 <= j < rest.len() implies rest[j] != name by {
            assert(rest[j] == hosts[j]);
        }
        lemma_taking_a_stranger(rest, taken, name);
    }
}

/// Where no name stands twice among the hosts, taking a free host leaves
/// one host fewer free.
pub proof fn lemma_taking_a_host(hosts: Seq<Seq<char>>, taken: Set<Seq<char>>, name: Seq<char>)
    requires
        forall|i: int, j: int| 0 <= i < j < hosts.len() ==> hosts[i] != hosts[j],
        hosts.contains(name),
        !taken.contains(name),
    ensures
        free_count(hosts, taken.insert(name)) + 1 == free_count(hosts, taken),
    decreases hosts.len(),
{
    let rest = hosts.drop_last();
    let last = hosts.len() - 1;
    assert forall|j: int| 0 <= j < rest.len() implies rest[j] == hosts[j] by {}
    if hosts[last] == name {
        assert forall|j: int| 0 <= j < rest.len() implies rest[j] != name by {
            assert(hosts[j] != hosts[last]);
        }
        lemma_taking_a_stranger(rest, taken, name);
    } else {
        let k = choose|k: int| 0 <= k < hosts.len() && hosts[k] == name;
        assert(rest[k] == name);
        assert forall|i: int, j: int| 0 <= i < j < rest.len() implies rest[i] != rest[j] by {
            assert(hosts[i] != hosts[j]);
        }
        lemma_taking_a_host(rest, taken, name);
    }
}

/// The pool hands out a name exactly where one is available, and each name
/// that is handed out and added to those in use leaves one fewer available:
/// from `n` available names the pool hands out `n` names, each new, and then
/// is exhausted.
pub proof fn lemma_allocation_counts_down(
    cidr: Seq<char>,
    gateway: Seq<char>,
    used: Seq<Seq<char>>,
)
    ensures
        allocation(cidr, gateway, used) is Ok <==> available(cidr, gateway, used) > 0,
        allocation(cidr, gateway, used) matches Ok(name) ==> available(
            cidr,
            gateway,
            used.push(name),
        ) + 1 == available(cidr, gateway, used),
        cidr_block(cidr) matches Ok(block) ==> available(cidr, gateway, used) <= host_count(
            block.prefix_len,
        ) && (available(cidr, gateway, used) == 0 <==> allocation(cidr, gateway, used) == Err::<
            Seq<char>,
            AllocateError,
        >(AllocateError::PoolExhausted)),
{
    if cidr_block(cidr) is Ok {
        let block = cidr_block(cidr)->Ok_0;
        let hosts = host_texts(block);
        let taken = taken_names(gateway, block.prefix_text, used);
        lemma_free_count_zero(hosts, taken);
        lemma_first_free_none(hosts, taken);
        if allocation(cidr, gateway, used) is Ok {
            let name = allocation(cidr, gateway, used)->Ok_0;
            let k = lemma_first_free_some(hosts, taken);
            assert forall|i: int, j: int| 0 <= i < j < hosts.len() implies hosts[i] != hosts[j] by {
                lemma_host_names_differ(block, i, j);
            }
            lemma_taking_a_host(hosts, taken, name);
            let grown = used.push(name);
            assert(taken_names(gateway, block.prefix_text, grown) =~= taken.insert(name)) by {
                assert forall|x: Seq<char>| grown.contains(x) <==> used.contains(x) || x
                    == name by {
                    if used.contains(x) {
                        let i = choose|i: int| 0 <= i < used.len() && used[i] == x;
                        assert(grown[i] == x);
                    }
                    if x == name {
                        assert(grown[used.len() as int] == name);
                    }
                }
            }
        }
    }
}

} // verus!
