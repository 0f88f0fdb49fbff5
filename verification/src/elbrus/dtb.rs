//! The device tree as the Elbrus kernel sees it: a root node with its
//! properties, looked up by path and name, and the memory region that the
//! `/memory` node's `reg` property describes.
use vstd::prelude::*;
use super::KError;
use crate::text::str_eq;
use vstd::string::StringSliceAdditionalSpecFns;

verus! {

#[derive(Debug, Clone, Copy, PartialEq, Eq)]
#[allow(non_camel_case_types)]
pub enum MappingPermissions {
    READ,
    WRITE,
    EXECUTE,
    READ_WRITE,
    READ_EXECUTE,
    READ_WRITE_EXECUTE,
}

/// A node: its name and its properties (name and value), in order.
pub struct DtbNode {
    pub name: String,
    pub properties: Vec<(String, Vec<u8>)>,
}

pub struct Dtb {
    pub root: DtbNode,
}

/// The root node every tree has: an Elbrus 64 machine, model Elbrus-8S.
pub open spec fn root_properties() -> Seq<(Seq<char>, Seq<u8>)> {
    seq![
        ("compatible"@, "elbrus,elbrus64"@.map_values(|c: char| c as u8).push(0u8)),
        ("model"@, "Elbrus-8S"@.map_values(|c: char| c as u8).push(0u8)),
    ]
}

/// A node's properties as names and values.
pub open spec fn node_properties(n: &DtbNode) -> Seq<(Seq<char>, Seq<u8>)> {
    n.properties@.map_values(|p: (String, Vec<u8>)| (p.0@, p.1@))
}

/// The value of the first property called `name`, if any.
pub open spec fn first_value(props: Seq<(Seq<char>, Seq<u8>)>, name: Seq<char>) -> Option<Seq<u8>>
    decreases props.len(),
{
    if props.len() == 0 {
        None
    } else if props[0].0 == name {
        Some(props[0].1)
    } else {
        first_value(props.drop_first(), name)
    }
}

/// The bytes of an ASCII string followed by a zero byte.
fn nul_terminated(s: &str) -> (r: Vec<u8>)
    requires
        s.is_ascii(),
    ensures
        r@ == s@.map_values(|c: char| c as u8).push(0u8),
{
    let bytes = s.as_bytes();
    proof { vstd::string::is_ascii_spec_bytes(s); }
    let mut r: Vec<u8> = Vec::new();
    let mut i: usize = 0;
    while i < bytes.len()
        invariant
            i <= bytes@.len(),
            bytes@ == s.spec_bytes(),
            s.spec_bytes() =~= Seq::new(s@.len(), |j: int| s@[j] as u8),
            r@ == bytes@.subrange(0, i as int),
        decreases bytes@.len() - i,
    {
        r.push(bytes[i]);
        i = i + 1;
    }
    r.push(0);
    assert(r@ =~= s@.map_values(|c: char| c as u8).push(0u8));
    r
}

impl Dtb {
    /// Parses a device tree: empty data is refused; otherwise the tree is
    /// the root node with its two properties.
    pub fn from_bytes(data: &[u8]) -> (r: Result<Dtb, KError>)
        ensures
            data@.len() == 0 <==> r is Err,
            r is Err ==> r == Err::<Dtb, KError>(KError::InvalidArgument),
            r matches Ok(d) ==> d.root.name@ == "/"@ && node_properties(&d.root) == root_properties(),
    {
        if data.len() == 0 {
            return Err(KError::InvalidArgument);
        }
        proof {
            reveal_strlit("elbrus,elbrus64");
            reveal_strlit("Elbrus-8S");
        }
        let mut properties: Vec<(String, Vec<u8>)> = Vec::new();
        properties.push(("compatible".to_owned(), nul_terminated("elbrus,elbrus64")));
        properties.push(("model".to_owned(), nul_terminated("Elbrus-8S")));
        let root = DtbNode { name: "/".to_owned(), properties };
        assert(node_properties(&root) =~= root_properties());
        Ok(Dtb { root })
    }

    /// The node at `path`: the root for "/", nothing else.
    pub fn find_node(&self, path: &str) -> (r: Option<&DtbNode>)
        ensures
            path@ == "/"@ ==> r == Some(&self.root),
            path@ != "/"@ ==> r is None,
    {
        if str_eq(path, "/") {
            Some(&self.root)
        } else {
            None
        }
    }
}

impl DtbNode {
    /// The value of the first property called `name`.
    pub fn get_property(&self, name: &str) -> (r: Option<Vec<u8>>)
        ensures
            match first_value(node_properties(self), name@) {
                Some(v) => r matches Some(x) && x@ == v,
                None => r is None,
            },
    {
        assert(node_properties(self).subrange(0, self.properties@.len() as int) =~= node_properties(self));
        let mut i: usize = 0;
        while i < self.properties.len()
            invariant
                i <= self.properties@.len(),
                first_value(node_properties(self), name@) == first_value(node_properties(self).subrange(i as int, self.properties@.len() as int), name@),
            decreases self.properties@.len() - i,
        {
            let ghost rest = node_properties(self).subrange(i as int, self.properties@.len() as int);
            assert(rest.drop_first() =~= node_properties(self).subrange(i + 1, self.properties@.len() as int));
            if str_eq(self.properties[i].0.as_str(), name) {
                let v = self.properties[i].1.clone();
                return Some(v);
            }
            i = i + 1;
        }
        None
    }
}

/// The region a `reg` value describes: its first two big-endian 64-bit
/// numbers, the base and the size; none for a value shorter than that.
pub open spec fn region_of(reg: Seq<u8>) -> Option<(u64, u64)> {
    if reg.len() < 16 {
        None
    } else {
        Some((be64_value(reg.subrange(0, 8)), be64_value(reg.subrange(8, 16))))
    }
}

/// The number eight bytes encode, most significant first.
pub open spec fn be64_value(b: Seq<u8>) -> u64 {
    (b[0] * 0x100_0000_0000_0000 + b[1] * 0x1_0000_0000_0000 + b[2] * 0x100_0000_0000 + b[3] * 0x1_0000_0000
        + b[4] * 0x100_0000 + b[5] * 0x1_0000 + b[6] * 0x100 + b[7]) as u64
}

fn u64_from_be(b: &[u8], at: usize) -> (r: u64)
    requires
        at + 8 <= b@.len(),
    ensures
        r == be64_value(b@.subrange(at as int, at + 8)),
{
    let len = b.len();
    let mut r: u64 = 0;
    let mut i: usize = 0;
    while i < 8
        invariant
            i <= 8,
            len == b@.len(),
            at + 8 <= b@.len(),
            r == partial_be(b@.subrange(at as int, at + 8), i as int),
        decreases 8 - i,
    {
        proof { lemma_partial_be_bound(b@.subrange(at as int, at + 8), i as int); }
        r = r * 256 + b[at + i] as u64;
        i = i + 1;
    }
    proof { lemma_partial_be_full(b@.subrange(at as int, at + 8)); }
    r
}

/// The number the first `k` of eight bytes encode, most significant first.
pub open spec fn partial_be(b: Seq<u8>, k: int) -> int
    decreases k,
{
    if k <= 0 { 0 } else { partial_be(b, k - 1) * 256 + b[k - 1] }
}

proof fn lemma_partial_be_bound(b: Seq<u8>, k: int)
    requires
        0 <= k < 8,
        b.len() == 8,
    ensures
        partial_be(b, k) * 256 + 255 <= u64::MAX,
        partial_be(b, k) >= 0,
{
    lemma_partial_be_pow(b, k);
    vstd::arithmetic::power2::lemma2_to64();
    let x = partial_be(b, k);
    let p = vstd::arithmetic::power2::pow2((8 * k) as nat);
    assert(p <= 0x100_0000_0000_0000) by {
        if k < 7 {
            vstd::arithmetic::power2::lemma_pow2_strictly_increases((8 * k) as nat, 56);
        }
        vstd::arithmetic::power2::lemma2_to64_rest();
    }
    assert(x * 256 + 255 <= u64::MAX) by (nonlinear_arith)
        requires
            0 <= x < p,
            p <= 0x100_0000_0000_0000,
    ;
}

proof fn lemma_partial_be_pow(b: Seq<u8>, k: int)
    requires
        0 <= k <= 8,
        b.len() == 8,
    ensures
        0 <= partial_be(b, k) < vstd::arithmetic::power2::pow2((8 * k) as nat),
    decreases k,
{
    if k == 0 {
        vstd::arithmetic::power2::lemma2_to64();
    } else {
        lemma_partial_be_pow(b, k - 1);
        vstd::arithmetic::power2::lemma_pow2_adds((8 * (k - 1)) as nat, 8);
        vstd::arithmetic::power2::lemma2_to64();
        let p = vstd::arithmetic::power2::pow2((8 * (k - 1)) as nat);
        let x = partial_be(b, k - 1);
        assert(x * 256 + b[k - 1] < p * 256) by (nonlinear_arith)
            requires
                0 <= x < p,
                b[k - 1] < 256,
        ;
    }
}

proof fn lemma_partial_be_full(b: Seq<u8>)
    requires
        b.len() == 8,
    ensures
        partial_be(b, 8) == be64_value(b),
{
    lemma_partial_be_pow(b, 8);
    vstd::arithmetic::power2::lemma2_to64();
    assert(partial_be(b, 8) == b[0] * 0x100_0000_0000_0000 + b[1] * 0x1_0000_0000_0000 + b[2] * 0x100_0000_0000
        + b[3] * 0x1_0000_0000 + b[4] * 0x100_0000 + b[5] * 0x1_0000 + b[6] * 0x100 + b[7]) by {
        reveal_with_fuel(partial_be, 9);
    }
}

pub fn memory_region(reg: &[u8]) -> (r: Option<(u64, u64)>)
    ensures
        r == region_of(reg@),
{
    if reg.len() < 16 {
        return None;
    }
    Some((u64_from_be(reg, 0), u64_from_be(reg, 8)))
}

/// What start-up learns from the tree: the memory region, when the
/// `/memory` node has a usable `reg` property. A tree without a `/memory`
/// node is refused.
pub fn extract_initial_info(dtb: &Dtb) -> (r: Result<Option<(u64, u64)>, KError>)
    ensures
        r == Err::<Option<(u64, u64)>, KError>(KError::NotFound),
{
    proof {
        reveal_strlit("/memory");
        reveal_strlit("/");
        assert("/memory"@.len() != "/"@.len());
    }
    match dtb.find_node("/memory") {
        Some(node) => {
            assert(false);
            match node.get_property("reg") {
                Some(reg) => Ok(memory_region(reg.as_slice())),
                None => Ok(None),
            }
        },
        None => Err(KError::NotFound),
    }
}

/// Start-up from the tree at `dtb_phys_addr` of `dtb_size` bytes, given
/// its bytes: refused for a null address or an empty tree; otherwise the
/// tree is parsed and what start-up learns from it is returned.
pub fn init(dtb_phys_addr: usize, dtb_size: usize, dtb_bytes: &[u8]) -> (r: Result<Option<(u64, u64)>, KError>)
    requires
        dtb_bytes@.len() == dtb_size,
    ensures
        (dtb_phys_addr == 0 || dtb_size == 0) ==> r == Err::<Option<(u64, u64)>, KError>(KError::InvalidArgument),
        !(dtb_phys_addr == 0 || dtb_size == 0) ==> r == Err::<Option<(u64, u64)>, KError>(KError::NotFound),
{
    if dtb_phys_addr == 0 || dtb_size == 0 {
        return Err(KError::InvalidArgument);
    }
    let dtb = match Dtb::from_bytes(dtb_bytes) {
        Ok(d) => d,
        Err(e) => return Err(e),
    };
    extract_initial_info(&dtb)
}

/// A region of memory the kernel may use.
#[derive(Debug, Clone, Copy, PartialEq, Eq)]
pub struct MemoryRegion {
    pub base: u64,
    pub size: u64,
}

/// Records a region of memory; an empty region is refused.
pub fn add_memory_region(regions: &mut Vec<MemoryRegion>, base_addr: u64, size: u64) -> (r: Result<(), KError>)
    ensures
        size == 0 ==> r == Err::<(), KError>(KError::InvalidArgument) && final(regions)@ == old(regions)@,
        size != 0 ==> r is Ok && final(regions)@ == old(regions)@.push(MemoryRegion { base: base_addr, size }),
{
    if size == 0 {
        return Err(KError::InvalidArgument);
    }
    regions.push(MemoryRegion { base: base_addr, size });
    Ok(())
}

/// The nodes of the tree whose `compatible` property is `compatible`
/// followed by a zero byte: the root or none.
pub fn find_device_by_compatible<'a>(dtb: &'a Dtb, compatible: &str) -> (r: Option<&'a DtbNode>)
    requires
        compatible.is_ascii(),
    ensures
        r is Some <==> first_value(node_properties(&dtb.root), "compatible"@)
            == Some(compatible@.map_values(|c: char| c as u8).push(0u8)),
        r matches Some(n) ==> n == &dtb.root,
{
    let want = nul_terminated(compatible);
    match dtb.root.get_property("compatible") {
        Some(v) => {
            if bytes_eq(v.as_slice(), want.as_slice()) { Some(&dtb.root) } else { None }
        },
        None => None,
    }
}

fn bytes_eq(a: &[u8], b: &[u8]) -> (r: bool)
    ensures
        r == (a@ == b@),
{
    if a.len() != b.len() {
        return false;
    }
    let mut i: usize = 0;
    while i < a.len()
        invariant
            i <= a@.len(),
            a@.len() == b@.len(),
            forall|j: int| 0 <= j < i ==> a@[j] == b@[j],
        decreases a@.len() - i,
    {
        if a[i] != b[i] {
            return false;
        }
        i = i + 1;
    }
    assert(a@ =~= b@);
    true
}

/// The value of property `prop_name` of the node at `node_path`.
pub fn get_property(dtb: &Dtb, node_path: &str, prop_name: &str) -> (r: Option<Vec<u8>>)
    ensures
        node_path@ != "/"@ ==> r is None,
        node_path@ == "/"@ ==> match first_value(node_properties(&dtb.root), prop_name@) {
            Some(v) => r matches Some(x) && x@ == v,
            None => r is None,
        },
{
    match dtb.find_node(node_path) {
        Some(node) => node.get_property(prop_name),
        None => None,
    }
}

} // verus!
