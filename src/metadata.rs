//! Fungible-token metadata as the factory and its vaults carry it.

use vstd::prelude::*;
use vstd::string::StringExecFns;

verus! {

/// Name, symbol and presentation of a fungible token.
pub struct FungibleTokenMetadata {
    pub spec: String,
    pub name: String,
    pub symbol: String,
    pub icon: Option<String>,
    pub reference: Option<String>,
    pub reference_hash: Option<Vec<u8>>,
    pub decimals: u8,
}

/// The contents of a [`FungibleTokenMetadata`].
pub struct MetadataView {
    pub spec: Seq<char>,
    pub name: Seq<char>,
    pub symbol: Seq<char>,
    pub icon: Option<Seq<char>>,
    pub reference: Option<Seq<char>>,
    pub reference_hash: Option<Seq<u8>>,
    pub decimals: u8,
}

/// The view of an optional string.
pub open spec fn opt_view(o: Option<String>) -> Option<Seq<char>> {
    match o {
        Some(s) => Some(s@),
        None => None,
    }
}

/// The version tag that valid metadata carries: `ft-1.0.0`.
pub open spec fn ft_metadata_spec() -> Seq<char> {
    seq!['f', 't', '-', '1', '.', '0', '.', '0']
}

/// Metadata that names the supported version, and carries a reference exactly when it
/// carries its 32-byte hash.
pub open spec fn valid_metadata(m: MetadataView) -> bool {
    &&& m.spec == ft_metadata_spec()
    &&& m.reference.is_some() == m.reference_hash.is_some()
    &&& (m.reference_hash matches Some(h) ==> h.len() == 32)
}

impl View for FungibleTokenMetadata {
    type V = MetadataView;

    open spec fn view(&self) -> MetadataView {
        MetadataView {
            spec: self.spec@,
            name: self.name@,
            symbol: self.symbol@,
            icon: opt_view(self.icon),
            reference: opt_view(self.reference),
            reference_hash: match self.reference_hash {
                Some(h) => Some(h@),
                None => None,
            },
            decimals: self.decimals,
        }
    }
}

/// A copy of an optional string.
pub fn clone_opt_string(o: &Option<String>) -> (r: Option<String>)
    ensures
        r == *o,
{
    match o {
        Some(s) => Some(s.clone()),
        None => None,
    }
}

/// A copy of a byte vector.
fn clone_bytes(v: &Vec<u8>) -> (r: Vec<u8>)
    ensures
        r@ == v@,
{
    let mut r: Vec<u8> = Vec::new();
    let mut i: usize = 0;
    while i < v.len()
        invariant
            i <= v.len(),
            r@ == v@.take(i as int),
        decreases v.len() - i,
    {
        r.push(v[i]);
        assert(v@.take(i + 1) =~= v@.take(i as int).push(v@[i as int]));
        i = i + 1;
    }
    assert(v@.take(v.len() as int) =~= v@);
    r
}

/// A copy of optional bytes.
pub fn clone_opt_bytes(o: &Option<Vec<u8>>) -> (r: Option<Vec<u8>>)
    ensures
        match r {
            Some(v) => (*o matches Some(w) && v@ == w@),
            None => o.is_none(),
        },
{
    match o {
        Some(h) => Some(clone_bytes(h)),
        None => None,
    }
}

impl FungibleTokenMetadata {
    /// A copy with the same contents.
    pub fn duplicate(&self) -> (r: FungibleTokenMetadata)
        ensures
            r@ == self@,
    {
        FungibleTokenMetadata {
            spec: self.spec.clone(),
            name: self.name.clone(),
            symbol: self.symbol.clone(),
            icon: clone_opt_string(&self.icon),
            reference: clone_opt_string(&self.reference),
            reference_hash: clone_opt_bytes(&self.reference_hash),
            decimals: self.decimals,
        }
    }

    /// Whether the metadata names the supported version and pairs reference and hash.
    pub fn is_valid(&self) -> (r: bool)
        ensures
            r == valid_metadata(self@),
    {
        let tag = String::from_str("ft-1.0.0");
        proof {
            reveal_strlit("ft-1.0.0");
        }
        assert(tag@ =~= ft_metadata_spec());
        if !(self.spec == tag) {
            return false;
        }
        if self.reference.is_some() != self.reference_hash.is_some() {
            return false;
        }
        match &self.reference_hash {
            Some(h) => h.len() == 32,
            None => true,
        }
    }
}

} // verus!
