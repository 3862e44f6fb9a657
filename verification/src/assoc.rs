//! The address association set: records correlating an IPv4 address with a
//! MAC address, possibly partially, with multi-valued queries, ambiguity
//! detection and consolidation.
use vstd::prelude::*;

use crate::addresses::{Ipv4Address, MacAddress};
use crate::seqtools::{
    contains_position, lemma_filter_agree, lemma_filter_compose, lemma_filter_none,
    lemma_filter_nonempty_iff, lemma_filter_push, lemma_map_values_push, lemma_positions_by_pred,
    pos_pairs, seq_drop_positions, seq_keep_positions,
};

verus! {

/// Error raised when an association is asked for an IP or MAC that no
/// record of the set contains; carries both addresses.
#[derive(Clone, Copy, Debug)]
pub struct IPMACAssociateError(pub Ipv4Address, pub MacAddress);

impl IPMACAssociateError {
    /// Wraps the two addresses that could not be associated.
    pub fn new(ip: Ipv4Address, mac: MacAddress) -> (r: IPMACAssociateError)
        ensures
            r == IPMACAssociateError(ip, mac),
    {
        IPMACAssociateError(ip, mac)
    }
}

/// Error raised when a caller tries to set an already-present field of a
/// record; carries the rejected value.
#[derive(Clone, Copy, Debug)]
pub enum SingleAssignmentError {
    IpAlreadySet(Ipv4Address),
    MacAlreadySet(MacAddress),
}

/// One association record: an optional IPv4 address and an optional MAC
/// address. A record may be partial (one field set) or complete (both).
#[derive(Clone, Copy, Debug)]
pub struct IpMacCombo {
    ip: Option<Ipv4Address>,
    mac: Option<MacAddress>,
}

impl IpMacCombo {
    /// The IP field.
    pub closed spec fn spec_ip(self) -> Option<Ipv4Address> {
        self.ip
    }

    /// The MAC field.
    pub closed spec fn spec_mac(self) -> Option<MacAddress> {
        self.mac
    }

    /// The record holding exactly the given fields.
    pub closed spec fn combo(ip: Option<Ipv4Address>, mac: Option<MacAddress>) -> IpMacCombo {
        IpMacCombo { ip, mac }
    }

    /// Builds a complete record.
    pub fn new(new_ip: Ipv4Address, new_mac: MacAddress) -> (r: IpMacCombo)
        ensures
            r == IpMacCombo::combo(Some(new_ip), Some(new_mac)),
    {
        IpMacCombo { ip: Some(new_ip), mac: Some(new_mac) }
    }

    /// Builds a partial record holding only an IP.
    pub fn from_ip(new_ip: Ipv4Address) -> (r: IpMacCombo)
        ensures
            r == IpMacCombo::combo(Some(new_ip), None),
    {
        IpMacCombo { ip: Some(new_ip), mac: None }
    }

    /// Builds a partial record holding only a MAC.
    pub fn from_mac(new_mac: MacAddress) -> (r: IpMacCombo)
        ensures
            r == IpMacCombo::combo(None, Some(new_mac)),
    {
        IpMacCombo { ip: None, mac: Some(new_mac) }
    }

    /// Whether the IP field is set.
    pub fn has_ip(&self) -> (r: bool)
        ensures
            r == (self.spec_ip() is Some),
    {
        self.ip.is_some()
    }

    /// Whether the MAC field is set.
    pub fn has_mac(&self) -> (r: bool)
        ensures
            r == (self.spec_mac() is Some),
    {
        self.mac.is_some()
    }

    /// The MAC field.
    pub fn get_mac(&self) -> (r: Option<MacAddress>)
        ensures
            r == self.spec_mac(),
    {
        self.mac
    }

    /// The IP field.
    pub fn get_ip(&self) -> (r: Option<Ipv4Address>)
        ensures
            r == self.spec_ip(),
    {
        self.ip
    }

    /// Sets the IP field; a field once set cannot be overwritten, so a
    /// second attempt is rejected and the record is left unchanged.
    pub fn add_ip(&mut self, ip: Ipv4Address) -> (r: Result<(), SingleAssignmentError>)
        ensures
            old(self).spec_ip() is None ==> (r is Ok && *final(self) == IpMacCombo::combo(
                Some(ip),
                old(self).spec_mac(),
            )),
            old(self).spec_ip() is Some ==> (r == Err::<(), _>(
                SingleAssignmentError::IpAlreadySet(ip),
            ) && *final(self) == *old(self)),
    {
        if self.ip.is_some() {
            return Err(SingleAssignmentError::IpAlreadySet(ip));
        }
        self.ip = Some(ip);
        Ok(())
    }

    /// Sets the MAC field; a field once set cannot be overwritten, so a
    /// second attempt is rejected and the record is left unchanged.
    pub fn add_mac(&mut self, mac: MacAddress) -> (r: Result<(), SingleAssignmentError>)
        ensures
            old(self).spec_mac() is None ==> (r is Ok && *final(self) == IpMacCombo::combo(
                old(self).spec_ip(),
                Some(mac),
            )),
            old(self).spec_mac() is Some ==> (r == Err::<(), _>(
                SingleAssignmentError::MacAlreadySet(mac),
            ) && *final(self) == *old(self)),
    {
        if self.mac.is_some() {
            return Err(SingleAssignmentError::MacAlreadySet(mac));
        }
        self.mac = Some(mac);
        Ok(())
    }
}

/// A record built from fields reads those fields back.
pub proof fn lemma_combo_fields(ip: Option<Ipv4Address>, mac: Option<MacAddress>)
    ensures
        IpMacCombo::combo(ip, mac).spec_ip() == ip,
        IpMacCombo::combo(ip, mac).spec_mac() == mac,
{
}

/// Two records with the same fields are the same record.
pub proof fn lemma_combo_ext(a: IpMacCombo, b: IpMacCombo)
    requires
        a.spec_ip() == b.spec_ip(),
        a.spec_mac() == b.spec_mac(),
    ensures
        a == b,
{
}

impl PartialEq for IpMacCombo {
    /// Records are equal when both fields agree.
    fn eq(&self, other: &IpMacCombo) -> (r: bool)
        ensures
            r == (*self == *other),
    {
        let ip_eq = match (self.ip, other.ip) {
            (Some(a), Some(b)) => a == b,
            (None, None) => true,
            _ => false,
        };
        let mac_eq = match (self.mac, other.mac) {
            (Some(a), Some(b)) => a == b,
            (None, None) => true,
            _ => false,
        };
        ip_eq && mac_eq
    }
}

impl Eq for IpMacCombo {

}

impl vstd::std_specs::cmp::PartialEqSpecImpl for IpMacCombo {
    open spec fn obeys_eq_spec() -> bool {
        true
    }

    open spec fn eq_spec(&self, other: &IpMacCombo) -> bool {
        *self == *other
    }
}

/// Whether a record carries exactly this IP.
pub open spec fn combo_has_ip(c: IpMacCombo, ip: Ipv4Address) -> bool {
    c.spec_ip() == Some(ip)
}

/// Whether a record carries exactly this MAC.
pub open spec fn combo_has_mac(c: IpMacCombo, mac: MacAddress) -> bool {
    c.spec_mac() == Some(mac)
}

/// The records that carry this IP.
pub open spec fn has_ip_pred(ip: Ipv4Address) -> spec_fn(IpMacCombo) -> bool {
    |c: IpMacCombo| combo_has_ip(c, ip)
}

/// The records that do not carry this IP.
pub open spec fn lacks_ip_pred(ip: Ipv4Address) -> spec_fn(IpMacCombo) -> bool {
    |c: IpMacCombo| !combo_has_ip(c, ip)
}

/// The records that carry this MAC.
pub open spec fn has_mac_pred(mac: MacAddress) -> spec_fn(IpMacCombo) -> bool {
    |c: IpMacCombo| combo_has_mac(c, mac)
}

/// The records that do not carry this MAC.
pub open spec fn lacks_mac_pred(mac: MacAddress) -> spec_fn(IpMacCombo) -> bool {
    |c: IpMacCombo| !combo_has_mac(c, mac)
}

/// The complete records that carry exactly this IP and MAC pair.
pub open spec fn has_ip_mac_pred(ip: Ipv4Address, mac: MacAddress) -> spec_fn(IpMacCombo) -> bool {
    |c: IpMacCombo| combo_has_ip(c, ip) && combo_has_mac(c, mac)
}

/// The records that carry neither this IP nor this MAC.
pub open spec fn lacks_both_pred(ip: Ipv4Address, mac: MacAddress) -> spec_fn(
    IpMacCombo,
) -> bool {
    |c: IpMacCombo| !combo_has_ip(c, ip) && !combo_has_mac(c, mac)
}

/// Whether some record of the sequence carries this IP.
pub open spec fn set_contains_ip(s: Seq<IpMacCombo>, ip: Ipv4Address) -> bool {
    exists|j: int| 0 <= j < s.len() && combo_has_ip(#[trigger] s[j], ip)
}

/// Whether some record of the sequence carries this MAC.
pub open spec fn set_contains_mac(s: Seq<IpMacCombo>, mac: MacAddress) -> bool {
    exists|j: int| 0 <= j < s.len() && combo_has_mac(#[trigger] s[j], mac)
}

/// Whether two records of the sequence carry this IP together with two
/// different MACs.
pub open spec fn spec_ip_has_multiple_macs(s: Seq<IpMacCombo>, ip: Ipv4Address) -> bool {
    exists|j: int, k: int|
        0 <= j < s.len() && 0 <= k < s.len() && combo_has_ip(#[trigger] s[j], ip) && combo_has_ip(
            #[trigger] s[k],
            ip,
        ) && s[j].spec_mac() is Some && s[k].spec_mac() is Some && s[j].spec_mac() != s[k].spec_mac()
}

/// Whether two records of the sequence carry this MAC together with two
/// different IPs.
pub open spec fn spec_mac_has_multiple_ips(s: Seq<IpMacCombo>, mac: MacAddress) -> bool {
    exists|j: int, k: int|
        0 <= j < s.len() && 0 <= k < s.len() && combo_has_mac(#[trigger] s[j], mac)
            && combo_has_mac(#[trigger] s[k], mac) && s[j].spec_ip() is Some && s[k].spec_ip() is Some
            && s[j].spec_ip() != s[k].spec_ip()
}

/// An ordered collection of association records. Several records may share
/// an IP or a MAC; that is how ambiguity is detected.
#[derive(Clone, Debug)]
pub struct IpMacSet {
    entries: Vec<IpMacCombo>,
}

impl View for IpMacSet {
    type V = Seq<IpMacCombo>;

    closed spec fn view(&self) -> Seq<IpMacCombo> {
        self.entries@
    }
}

impl IpMacSet {
    /// Builds an empty set.
    pub fn new() -> (r: IpMacSet)
        ensures
            r@ == Seq::<IpMacCombo>::empty(),
    {
        IpMacSet { entries: Vec::new() }
    }

    /// Appends a record; always succeeds.
    pub fn push(&mut self, entry: IpMacCombo)
        ensures
            final(self)@ == old(self)@.push(entry),
    {
        self.entries.push(entry)
    }

    /// Appends a partial record holding only this IP; always succeeds.
    pub fn push_ip(&mut self, entry: Ipv4Address)
        ensures
            final(self)@ == old(self)@.push(IpMacCombo::combo(Some(entry), None)),
    {
        self.entries.push(IpMacCombo::from_ip(entry));
    }

    /// Appends a partial record holding only this MAC; always succeeds.
    pub fn push_mac(&mut self, entry: MacAddress)
        ensures
            final(self)@ == old(self)@.push(IpMacCombo::combo(None, Some(entry))),
    {
        self.entries.push(IpMacCombo::from_mac(entry));
    }

    /// The record at a position, if the position is in range.
    pub fn get(&self, entry: usize) -> (r: Option<IpMacCombo>)
        ensures
            r == (if entry < self@.len() {
                Some(self@[entry as int])
            } else {
                None::<IpMacCombo>
            }),
    {
        if entry < self.entries.len() {
            Some(self.entries[entry])
        } else {
            None
        }
    }

    /// The position of the first record equal to `entry`, which must be in
    /// the set.
    pub fn get_index(&self, entry: IpMacCombo) -> (r: usize)
        requires
            self@.contains(entry),
        ensures
            r < self@.len(),
            self@[r as int] == entry,
            forall|j: int| 0 <= j < r ==> self@[j] != entry,
    {
        let n = self.entries.len();
        let mut i: usize = 0;
        while i < n
            invariant
                i <= n,
                n == self@.len(),
                self@.contains(entry),
                forall|j: int| 0 <= j < i ==> self@[j] != entry,
            decreases n - i,
        {
            if self.entries[i] == entry {
                return i;
            }
            i += 1;
        }
        proof {
            let w = choose|j: int| 0 <= j < self@.len() && self@[j] == entry;
            assert(false);
        }
        vstd::pervasive::unreached()
    }

    /// All records carrying this IP, in order.
    pub fn get_by_ip(&self, ip: Ipv4Address) -> (r: Vec<IpMacCombo>)
        ensures
            r@ == self@.filter(has_ip_pred(ip)),
    {
        let n = self.entries.len();
        let mut out: Vec<IpMacCombo> = Vec::new();
        let mut i: usize = 0;
        while i < n
            invariant
                i <= n,
                n == self@.len(),
                out@ == self@.take(i as int).filter(has_ip_pred(ip)),
            decreases n - i,
        {
            let c = self.entries[i];
            proof {
                lemma_filter_push(self@.take(i as int), c, has_ip_pred(ip));
                assert(self@.take(i as int + 1) =~= self@.take(i as int).push(c));
                assert(has_ip_pred(ip)(c) == combo_has_ip(c, ip));
            }
            let m = match c.ip {
                Some(a) => a == ip,
                None => false,
            };
            if m {
                out.push(c);
            }
            i += 1;
        }
        proof {
            assert(self@.take(n as int) =~= self@);
        }
        out
    }

    /// All records carrying this MAC, in order.
    pub fn get_by_mac(&self, mac: MacAddress) -> (r: Vec<IpMacCombo>)
        ensures
            r@ == self@.filter(has_mac_pred(mac)),
    {
        let n = self.entries.len();
        let mut out: Vec<IpMacCombo> = Vec::new();
        let mut i: usize = 0;
        while i < n
            invariant
                i <= n,
                n == self@.len(),
                out@ == self@.take(i as int).filter(has_mac_pred(mac)),
            decreases n - i,
        {
            let c = self.entries[i];
            proof {
                lemma_filter_push(self@.take(i as int), c, has_mac_pred(mac));
                assert(self@.take(i as int + 1) =~= self@.take(i as int).push(c));
                assert(has_mac_pred(mac)(c) == combo_has_mac(c, mac));
            }
            let m = match c.mac {
                Some(a) => a == mac,
                None => false,
            };
            if m {
                out.push(c);
            }
            i += 1;
        }
        proof {
            assert(self@.take(n as int) =~= self@);
        }
        out
    }

    /// All complete records carrying exactly this IP and MAC pair, in order.
    pub fn get_by_ip_mac(&self, ip: Ipv4Address, mac: MacAddress) -> (r: Vec<IpMacCombo>)
        ensures
            r@ == self@.filter(has_ip_mac_pred(ip, mac)),
    {
        let n = self.entries.len();
        let mut out: Vec<IpMacCombo> = Vec::new();
        let mut i: usize = 0;
        while i < n
            invariant
                i <= n,
                n == self@.len(),
                out@ == self@.take(i as int).filter(has_ip_mac_pred(ip, mac)),
            decreases n - i,
        {
            let c = self.entries[i];
            proof {
                lemma_filter_push(self@.take(i as int), c, has_ip_mac_pred(ip, mac));
                assert(self@.take(i as int + 1) =~= self@.take(i as int).push(c));
                assert(has_ip_mac_pred(ip, mac)(c) == (combo_has_ip(c, ip) && combo_has_mac(
                    c,
                    mac,
                )));
            }
            let ip_m = match c.ip {
                Some(a) => a == ip,
                None => false,
            };
            let mac_m = match c.mac {
                Some(a) => a == mac,
                None => false,
            };
            if ip_m && mac_m {
                out.push(c);
            }
            i += 1;
        }
        proof {
            assert(self@.take(n as int) =~= self@);
        }
        out
    }

    /// The positions of all records carrying this IP, in ascending order.
    pub fn get_indices_by_ip(&self, ip: Ipv4Address) -> (r: Vec<usize>)
        ensures
            forall|a: int, b: int| 0 <= a < b < r@.len() ==> r@[a] < r@[b],
            forall|a: int| 0 <= a < r@.len() ==> r@[a] < self@.len(),
            forall|a: int| 0 <= a < r@.len() ==> combo_has_ip(self@[r@[a] as int], ip),
            forall|q: int|
                0 <= q < self@.len() ==> (contains_position(r@, q) <==> combo_has_ip(
                    #[trigger] self@[q],
                    ip,
                )),
    {
        let n = self.entries.len();
        let mut out: Vec<usize> = Vec::new();
        let mut i: usize = 0;
        while i < n
            invariant
                i <= n,
                n == self@.len(),
                forall|a: int, b: int| 0 <= a < b < out@.len() ==> out@[a] < out@[b],
                forall|a: int| 0 <= a < out@.len() ==> out@[a] < i,
                forall|a: int| 0 <= a < out@.len() ==> combo_has_ip(self@[out@[a] as int], ip),
                forall|q: int|
                    0 <= q < i ==> (contains_position(out@, q) <==> combo_has_ip(
                        #[trigger] self@[q],
                        ip,
                    )),
            decreases n - i,
        {
            let c = self.entries[i];
            let m = match c.ip {
                Some(a) => a == ip,
                None => false,
            };
            let ghost prev = out@;
            if m {
                out.push(i);
            }
            proof {
                assert forall|q: int| 0 <= q < i + 1 implies (contains_position(out@, q)
                    <==> combo_has_ip(#[trigger] self@[q], ip)) by {
                    if q < i {
                        if contains_position(out@, q) {
                            let a = choose|a: int| 0 <= a < out@.len() && out@[a] == q;
                            assert(a < prev.len() && prev[a] == q);
                            assert(contains_position(prev, q));
                        }
                        if contains_position(prev, q) {
                            let a = choose|a: int| 0 <= a < prev.len() && prev[a] == q;
                            assert(out@[a] == q);
                            assert(contains_position(out@, q));
                        }
                    } else {
                        if m {
                            assert(out@[out@.len() - 1] == i);
                            assert(contains_position(out@, q));
                        } else {
                            if contains_position(out@, q) {
                                let a = choose|a: int| 0 <= a < out@.len() && out@[a] == q;
                                assert(out@[a] < i);
                                assert(false);
                            }
                        }
                    }
                }
            }
            i += 1;
        }
        out
    }

    /// The positions of all records carrying this MAC, in ascending order.
    pub fn get_indices_by_mac(&self, mac: MacAddress) -> (r: Vec<usize>)
        ensures
            forall|a: int, b: int| 0 <= a < b < r@.len() ==> r@[a] < r@[b],
            forall|a: int| 0 <= a < r@.len() ==> r@[a] < self@.len(),
            forall|a: int| 0 <= a < r@.len() ==> combo_has_mac(self@[r@[a] as int], mac),
            forall|q: int|
                0 <= q < self@.len() ==> (contains_position(r@, q) <==> combo_has_mac(
                    #[trigger] self@[q],
                    mac,
                )),
    {
        let n = self.entries.len();
        let mut out: Vec<usize> = Vec::new();
        let mut i: usize = 0;
        while i < n
            invariant
                i <= n,
                n == self@.len(),
                forall|a: int, b: int| 0 <= a < b < out@.len() ==> out@[a] < out@[b],
                forall|a: int| 0 <= a < out@.len() ==> out@[a] < i,
                forall|a: int| 0 <= a < out@.len() ==> combo_has_mac(self@[out@[a] as int], mac),
                forall|q: int|
                    0 <= q < i ==> (contains_position(out@, q) <==> combo_has_mac(
                        #[trigger] self@[q],
                        mac,
                    )),
            decreases n - i,
        {
            let c = self.entries[i];
            let m = match c.mac {
                Some(a) => a == mac,
                None => false,
            };
            let ghost prev = out@;
            if m {
                out.push(i);
            }
            proof {
                assert forall|q: int| 0 <= q < i + 1 implies (contains_position(out@, q)
                    <==> combo_has_mac(#[trigger] self@[q], mac)) by {
                    if q < i {
                        if contains_position(out@, q) {
                            let a = choose|a: int| 0 <= a < out@.len() && out@[a] == q;
                            assert(a < prev.len() && prev[a] == q);
                            assert(contains_position(prev, q));
                        }
                        if contains_position(prev, q) {
                            let a = choose|a: int| 0 <= a < prev.len() && prev[a] == q;
                            assert(out@[a] == q);
                            assert(contains_position(out@, q));
                        }
                    } else {
                        if m {
                            assert(out@[out@.len() - 1] == i);
                            assert(contains_position(out@, q));
                        } else {
                            if contains_position(out@, q) {
                                let a = choose|a: int| 0 <= a < out@.len() && out@[a] == q;
                                assert(out@[a] < i);
                                assert(false);
                            }
                        }
                    }
                }
            }
            i += 1;
        }
        out
    }

    /// Whether some record of the set equals `entry`.
    pub fn contains(&self, entry: &IpMacCombo) -> (r: bool)
        ensures
            r == self@.contains(*entry),
    {
        let n = self.entries.len();
        let mut i: usize = 0;
        while i < n
            invariant
                i <= n,
                n == self@.len(),
                forall|j: int| 0 <= j < i ==> self@[j] != *entry,
            decreases n - i,
        {
            if self.entries[i] == *entry {
                return true;
            }
            i += 1;
        }
        false
    }

    /// Whether some record of the set carries this IP.
    pub fn contains_ip(&self, ip: Ipv4Address) -> (r: bool)
        ensures
            r == set_contains_ip(self@, ip),
    {
        let v = self.get_by_ip(ip);
        proof {
            lemma_filter_nonempty_iff(self@, has_ip_pred(ip));
            assert(forall|j: int|
                0 <= j < self@.len() ==> (has_ip_pred(ip)(#[trigger] self@[j]) == combo_has_ip(
                    self@[j],
                    ip,
                )));
        }
        v.len() > 0
    }

    /// Whether some record of the set carries this MAC.
    pub fn contains_mac(&self, mac: MacAddress) -> (r: bool)
        ensures
            r == set_contains_mac(self@, mac),
    {
        let v = self.get_by_mac(mac);
        proof {
            lemma_filter_nonempty_iff(self@, has_mac_pred(mac));
            assert(forall|j: int|
                0 <= j < self@.len() ==> (has_mac_pred(mac)(#[trigger] self@[j]) == combo_has_mac(
                    self@[j],
                    mac,
                )));
        }
        v.len() > 0
    }

    /// Whether more than one record is simultaneously complete and equal to
    /// the given pair: a duplicated association.
    pub fn has_multiples_of(&self, ip: Ipv4Address, mac: MacAddress) -> (r: bool)
        ensures
            r == (self@.filter(has_ip_mac_pred(ip, mac)).len() > 1),
    {
        let v = self.get_by_ip_mac(ip, mac);
        v.len() > 1
    }

    /// Whether this IP appears in records carrying at least two distinct
    /// MAC values: a spoofing or misconfiguration signal.
    pub fn ip_has_multiple_macs(&self, ip: Ipv4Address) -> (r: bool)
        ensures
            r == spec_ip_has_multiple_macs(self@, ip),
    {
        let n = self.entries.len();
        let mut first_mac: Option<MacAddress> = None;
        let ghost mut fidx: int = 0;
        let mut i: usize = 0;
        while i < n
            invariant
                i <= n,
                n == self@.len(),
                first_mac is None ==> forall|j: int|
                    0 <= j < i ==> !(combo_has_ip(#[trigger] self@[j], ip) && self@[j].spec_mac() is Some),
                first_mac matches Some(fm) ==> {
                    &&& 0 <= fidx < i
                    &&& combo_has_ip(self@[fidx], ip)
                    &&& self@[fidx].spec_mac() == Some(fm)
                    &&& forall|j: int|
                        0 <= j < i ==> (combo_has_ip(#[trigger] self@[j], ip)
                            && self@[j].spec_mac() is Some) ==> self@[j].spec_mac() == Some(fm)
                },
            decreases n - i,
        {
            let c = self.entries[i];
            let ip_m = match c.ip {
                Some(a) => a == ip,
                None => false,
            };
            if ip_m {
                match c.mac {
                    Some(cm) => {
                        match first_mac {
                            None => {
                                first_mac = Some(cm);
                                proof {
                                    fidx = i as int;
                                }
                            },
                            Some(fm) => {
                                if cm != fm {
                                    return true;
                                }
                            },
                        }
                    },
                    None => {
                    },
                }
            }
            i += 1;
        }
        false
    }

    /// Whether this MAC appears in records carrying at least two distinct
    /// IP values: a spoofing or misconfiguration signal.
    pub fn mac_has_multiple_ips(&self, mac: MacAddress) -> (r: bool)
        ensures
            r == spec_mac_has_multiple_ips(self@, mac),
    {
        let n = self.entries.len();
        let mut first_ip: Option<Ipv4Address> = None;
        let ghost mut fidx: int = 0;
        let mut i: usize = 0;
        while i < n
            invariant
                i <= n,
                n == self@.len(),
                first_ip is None ==> forall|j: int|
                    0 <= j < i ==> !(combo_has_mac(#[trigger] self@[j], mac) && self@[j].spec_ip() is Some),
                first_ip matches Some(fi) ==> {
                    &&& 0 <= fidx < i
                    &&& combo_has_mac(self@[fidx], mac)
                    &&& self@[fidx].spec_ip() == Some(fi)
                    &&& forall|j: int|
                        0 <= j < i ==> (combo_has_mac(#[trigger] self@[j], mac)
                            && self@[j].spec_ip() is Some) ==> self@[j].spec_ip() == Some(fi)
                },
            decreases n - i,
        {
            let c = self.entries[i];
            let mac_m = match c.mac {
                Some(a) => a == mac,
                None => false,
            };
            if mac_m {
                match c.ip {
                    Some(ci) => {
                        match first_ip {
                            None => {
                                first_ip = Some(ci);
                                proof {
                                    fidx = i as int;
                                }
                            },
                            Some(fi) => {
                                if ci != fi {
                                    return true;
                                }
                            },
                        }
                    },
                    None => {
                    },
                }
            }
            i += 1;
        }
        false
    }

    /// Removes the record at one position and returns it.
    pub fn remove(&mut self, entry: usize) -> (r: IpMacCombo)
        requires
            entry < old(self)@.len(),
        ensures
            r == old(self)@[entry as int],
            final(self)@ == old(self)@.remove(entry as int),
    {
        self.entries.remove(entry)
    }

    /// Removes the records at the given positions, which must be supplied
    /// in ascending order, and returns them in that order. The records at
    /// all other positions survive, keeping their order.
    pub fn remove_indices(&mut self, entries: Vec<usize>) -> (removed: Vec<IpMacCombo>)
        requires
            forall|a: int, b: int| 0 <= a < b < entries@.len() ==> entries@[a] < entries@[b],
            forall|a: int| 0 <= a < entries@.len() ==> entries@[a] < old(self)@.len(),
        ensures
            removed@ == seq_keep_positions(old(self)@, entries@),
            removed@.len() == entries@.len(),
            forall|a: int| 0 <= a < entries@.len() ==> removed@[a] == old(self)@[entries@[a] as int],
            final(self)@ == seq_drop_positions(old(self)@, entries@),
    {
        let ghost s = self@;
        let ghost keep_pred = |p: (int, IpMacCombo)| contains_position(entries@, p.0);
        let ghost drop_pred = |p: (int, IpMacCombo)| !contains_position(entries@, p.0);
        let ghost untag = |p: (int, IpMacCombo)| p.1;
        let n = self.entries.len();
        let mut kept: Vec<IpMacCombo> = Vec::new();
        let mut removed: Vec<IpMacCombo> = Vec::new();
        let mut i: usize = 0;
        let mut j: usize = 0;
        while i < n
            invariant
                i <= n,
                j <= entries@.len(),
                n == s.len(),
                self@ == s,
                forall|a: int, b: int| 0 <= a < b < entries@.len() ==> entries@[a] < entries@[b],
                forall|a: int| 0 <= a < entries@.len() ==> entries@[a] < s.len(),
                forall|a: int| 0 <= a < j ==> entries@[a] < i,
                j < entries@.len() ==> i <= entries@[j as int],
                keep_pred == (|p: (int, IpMacCombo)| contains_position(entries@, p.0)),
                drop_pred == (|p: (int, IpMacCombo)| !contains_position(entries@, p.0)),
                untag == (|p: (int, IpMacCombo)| p.1),
                removed@ == pos_pairs(s.take(i as int)).filter(
                    keep_pred,
                ).map_values(untag),
                removed@.len() == j,
                forall|a: int| 0 <= a < j ==> removed@[a] == s[entries@[a] as int],
                kept@ == pos_pairs(s.take(i as int)).filter(drop_pred).map_values(
                    untag,
                ),
            decreases n - i,
        {
            let c = self.entries[i];
            let hit = j < entries.len() && entries[j] == i;
            proof {
                assert(contains_position(entries@, i as int) == hit) by {
                    if hit {
                        assert(entries@[j as int] == i);
                    } else {
                        if contains_position(entries@, i as int) {
                            let a = choose|a: int|
                                0 <= a < entries@.len() && entries@[a] == i as int;
                            if a < j {
                                assert(entries@[a] < i);
                            } else {
                                assert(j < entries@.len());
                                if a > j {
                                    assert(entries@[j as int] < entries@[a]);
                                }
                                assert(entries@[j as int] <= i);
                                assert(entries@[j as int] != i);
                                assert(entries@[j as int] < i);
                                assert(i <= entries@[j as int]);
                            }
                            assert(false);
                        }
                    }
                }
                let pairs = pos_pairs(s.take(i as int));
                assert(pos_pairs(s.take(i as int + 1)) =~= pairs.push(
                    (i as int, c),
                ));
                lemma_filter_push(pairs, (i as int, c), keep_pred);
                lemma_filter_push(pairs, (i as int, c), drop_pred);
                assert(keep_pred((i as int, c)) == contains_position(entries@, i as int));
                assert(drop_pred((i as int, c)) == !contains_position(entries@, i as int));
                if hit {
                    lemma_map_values_push(pairs.filter(keep_pred), (i as int, c), untag);
                    assert(untag((i as int, c)) == c);
                } else {
                    lemma_map_values_push(pairs.filter(drop_pred), (i as int, c), untag);
                    assert(untag((i as int, c)) == c);
                }
            }
            if hit {
                removed.push(c);
                j += 1;
            } else {
                kept.push(c);
            }
            i += 1;
        }
        proof {
            assert(s.take(n as int) =~= s);
            if j < entries@.len() {
                assert(entries@[j as int] < s.len());
                assert(false);
            }
        }
        self.entries = kept;
        removed
    }

    /// Removes every record carrying this IP and returns them, in order.
    pub fn remove_by_ip(&mut self, ip: Ipv4Address) -> (r: Vec<IpMacCombo>)
        ensures
            final(self)@ == old(self)@.filter(lacks_ip_pred(ip)),
            r@ == old(self)@.filter(has_ip_pred(ip)),
    {
        let ghost s = self@;
        let indices = self.get_indices_by_ip(ip);
        let removed = self.remove_indices(indices);
        proof {
            assert forall|q: int| 0 <= q < s.len() implies (contains_position(indices@, q)
                <==> has_ip_pred(ip)(#[trigger] s[q])) by {
                assert(has_ip_pred(ip)(s[q]) == combo_has_ip(s[q], ip));
            }
            lemma_positions_by_pred(s, indices@, has_ip_pred(ip));
            lemma_filter_agree(s, |x: IpMacCombo| !has_ip_pred(ip)(x), lacks_ip_pred(ip));
        }
        removed
    }

    /// Removes every record carrying this MAC and returns them, in order.
    pub fn remove_by_mac(&mut self, mac: MacAddress) -> (r: Vec<IpMacCombo>)
        ensures
            final(self)@ == old(self)@.filter(lacks_mac_pred(mac)),
            r@ == old(self)@.filter(has_mac_pred(mac)),
    {
        let ghost s = self@;
        let indices = self.get_indices_by_mac(mac);
        let removed = self.remove_indices(indices);
        proof {
            assert forall|q: int| 0 <= q < s.len() implies (contains_position(indices@, q)
                <==> has_mac_pred(mac)(#[trigger] s[q])) by {
                assert(has_mac_pred(mac)(s[q]) == combo_has_mac(s[q], mac));
            }
            lemma_positions_by_pred(s, indices@, has_mac_pred(mac));
            lemma_filter_agree(s, |x: IpMacCombo| !has_mac_pred(mac)(x), lacks_mac_pred(mac));
        }
        removed
    }

    /// Consolidates an IP and a MAC into one complete record. Requires some
    /// record to contain the IP and some record to contain the MAC; then
    /// every record containing either address is removed, one complete
    /// record of the pair is appended and returned. When either address is
    /// absent the set is unchanged and the error carries both addresses.
    pub fn associate_ip_mac(&mut self, ip: Ipv4Address, mac: MacAddress) -> (r: Result<
        IpMacCombo,
        IPMACAssociateError,
    >)
        ensures
            !(set_contains_ip(old(self)@, ip) && set_contains_mac(old(self)@, mac)) ==> (r
                == Err::<IpMacCombo, _>(IPMACAssociateError(ip, mac)) && final(self)@ == old(
                self,
            )@),
            set_contains_ip(old(self)@, ip) && set_contains_mac(old(self)@, mac) ==> (r == Ok::<
                _,
                IPMACAssociateError,
            >(IpMacCombo::combo(Some(ip), Some(mac))) && final(self)@ == old(self)@.filter(
                lacks_both_pred(ip, mac),
            ).push(IpMacCombo::combo(Some(ip), Some(mac)))),
    {
        let ghost s = self@;
        if !self.contains_ip(ip) || !self.contains_mac(mac) {
            Err(IPMACAssociateError(ip, mac))
        } else {
            self.remove_by_ip(ip);
            self.remove_by_mac(mac);
            proof {
                lemma_filter_compose(s, lacks_ip_pred(ip), lacks_mac_pred(mac));
                assert forall|i: int| 0 <= i < s.len() implies ((|x: IpMacCombo| lacks_ip_pred(ip)(
                    x,
                ) && lacks_mac_pred(mac)(x))(#[trigger] s[i]) == lacks_both_pred(ip, mac)(
                    s[i],
                )) by {
                    assert(lacks_ip_pred(ip)(s[i]) == !combo_has_ip(s[i], ip));
                    assert(lacks_mac_pred(mac)(s[i]) == !combo_has_mac(s[i], mac));
                    assert(lacks_both_pred(ip, mac)(s[i]) == (!combo_has_ip(s[i], ip)
                        && !combo_has_mac(s[i], mac)));
                }
                lemma_filter_agree(
                    s,
                    |x: IpMacCombo| lacks_ip_pred(ip)(x) && lacks_mac_pred(mac)(x),
                    lacks_both_pred(ip, mac),
                );
            }
            let ip_mac = IpMacCombo::new(ip, mac);
            self.push(ip_mac);
            Ok(ip_mac)
        }
    }
}

/// After a successful association of `ip` with `mac`, exactly one record
/// of the resulting set is complete with exactly that pair.
pub proof fn lemma_associate_unique(s: Seq<IpMacCombo>, ip: Ipv4Address, mac: MacAddress)
    ensures
        s.filter(lacks_both_pred(ip, mac)).push(IpMacCombo::combo(Some(ip), Some(mac))).filter(
            has_ip_mac_pred(ip, mac),
        ).len() == 1,
{
    let t = s.filter(lacks_both_pred(ip, mac));
    let c = IpMacCombo::combo(Some(ip), Some(mac));
    assert forall|i: int| 0 <= i < t.len() implies !(has_ip_mac_pred(ip, mac)(
        #[trigger] t[i],
    )) by {
        s.lemma_filter_pred(lacks_both_pred(ip, mac), i);
        assert(lacks_both_pred(ip, mac)(t[i]) == (!combo_has_ip(t[i], ip) && !combo_has_mac(
            t[i],
            mac,
        )));
        assert(has_ip_mac_pred(ip, mac)(t[i]) == (combo_has_ip(t[i], ip) && combo_has_mac(
            t[i],
            mac,
        )));
    }
    lemma_filter_none(t, has_ip_mac_pred(ip, mac));
    lemma_filter_push(t, c, has_ip_mac_pred(ip, mac));
    lemma_combo_fields(Some(ip), Some(mac));
    assert(has_ip_mac_pred(ip, mac)(c));
}

/// Two records carrying one IP with two distinct MACs make the
/// multiple-MACs signal hold of the set.
pub proof fn lemma_distinct_macs_flagged(
    s: Seq<IpMacCombo>,
    ip: Ipv4Address,
    j: int,
    k: int,
)
    requires
        0 <= j < s.len(),
        0 <= k < s.len(),
        combo_has_ip(s[j], ip),
        combo_has_ip(s[k], ip),
        s[j].spec_mac() is Some,
        s[k].spec_mac() is Some,
        s[j].spec_mac() != s[k].spec_mac(),
    ensures
        spec_ip_has_multiple_macs(s, ip),
{
}

} // verus!
