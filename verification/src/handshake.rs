//! Version and capability negotiation.
//!
//! Each peer opens its stream with a handshake that names the schema revision
//! it implements and the extensions it supports. The versions must be equal;
//! the extensions in force are those that both peers named.

use crate::session::ProtocolError;
use vstd::prelude::*;

verus! {

/// The first message of each stream.
#[derive(Clone, Debug, PartialEq, Eq, Hash, PartialOrd, Ord)]
pub struct Handshake {
    pub version: i32,
    pub extensions: Vec<String>,
}

/// What a handshake holds.
pub struct HandshakeView {
    pub version: i32,
    pub extensions: Seq<Seq<char>>,
}

impl View for Handshake {
    type V = HandshakeView;

    open spec fn view(&self) -> HandshakeView {
        HandshakeView { version: self.version, extensions: self.extensions.deep_view() }
    }
}

/// The outcome of a successful negotiation; it does not change for the rest
/// of the session.
#[derive(Clone, Debug, PartialEq, Eq, Hash, PartialOrd, Ord)]
pub struct Negotiated {
    pub version: i32,
    pub extensions: Vec<String>,
}

/// The extensions of `local` that `peer` names too, each once, in the order
/// in which `local` first names them.
pub open spec fn shared_extensions(local: Seq<Seq<char>>, peer: Seq<Seq<char>>) -> Seq<Seq<char>>
    decreases local.len(),
{
    if local.len() == 0 {
        Seq::empty()
    } else {
        let before = shared_extensions(local.drop_last(), peer);
        if peer.contains(local.last()) && !before.contains(local.last()) {
            before.push(local.last())
        } else {
            before
        }
    }
}

/// The extensions in force are exactly the intersection of the two sets that
/// the peers named, and none is listed twice.
pub proof fn shared_extensions_is_intersection(local: Seq<Seq<char>>, peer: Seq<Seq<char>>)
    ensures
        shared_extensions(local, peer).to_set() == local.to_set().intersect(peer.to_set()),
        shared_extensions(local, peer).no_duplicates(),
    decreases local.len(),
{
    let all = shared_extensions(local, peer);
    if local.len() == 0 {
        assert(all.to_set() =~= local.to_set().intersect(peer.to_set()));
    } else {
        let front = local.drop_last();
        let before = shared_extensions(front, peer);
        shared_extensions_is_intersection(front, peer);
        assert forall|s: Seq<char>| all.contains(s) <==> (local.contains(s) && peer.contains(
            s,
        )) by {
            assert(before.contains(s) <==> before.to_set().contains(s));
            assert(front.contains(s) <==> front.to_set().contains(s));
            if front.contains(s) {
                let i = choose|i: int| 0 <= i < front.len() && front[i] == s;
                assert(local[i] == s);
            }
            if local.contains(s) && s != local.last() {
                let i = choose|i: int| 0 <= i < local.len() && local[i] == s;
                assert(front[i] == s);
            }
            assert(local[local.len() - 1] == local.last());
            if before.contains(s) {
                let i = choose|i: int| 0 <= i < before.len() && before[i] == s;
                if all.len() > before.len() {
                    assert(all[i] == s);
                }
            }
            if all.contains(s) && !before.contains(s) {
                let i = choose|i: int| 0 <= i < all.len() && all[i] == s;
                assert(i == before.len());
            }
            if all.len() > before.len() {
                assert(all[before.len() as int] == local.last());
            }
        }
        assert(all.to_set() =~= local.to_set().intersect(peer.to_set()));
    }
}

/// The order of the peer's list does not matter, nor how often it names an
/// extension: only the set that it names.
pub proof fn shared_extensions_reads_peer_as_set(
    local: Seq<Seq<char>>,
    peer: Seq<Seq<char>>,
    other: Seq<Seq<char>>,
)
    requires
        peer.to_set() == other.to_set(),
    ensures
        shared_extensions(local, peer) == shared_extensions(local, other),
    decreases local.len(),
{
    if local.len() > 0 {
        shared_extensions_reads_peer_as_set(local.drop_last(), peer, other);
        assert(peer.contains(local.last()) <==> peer.to_set().contains(local.last()));
        assert(other.contains(local.last()) <==> other.to_set().contains(local.last()));
    }
}

/// Both peers arrive at the same set of extensions, whichever of them
/// computes it.
pub proof fn both_peers_agree(local: Seq<Seq<char>>, peer: Seq<Seq<char>>)
    ensures
        shared_extensions(local, peer).to_set() == shared_extensions(peer, local).to_set(),
{
    shared_extensions_is_intersection(local, peer);
    shared_extensions_is_intersection(peer, local);
    assert(local.to_set().intersect(peer.to_set()) =~= peer.to_set().intersect(local.to_set()));
}

/// Whether `list` names `text`.
pub fn names(list: &Vec<String>, text: &String) -> (found: bool)
    ensures
        found == list.deep_view().contains(text@),
{
    let mut i: usize = 0;
    while i < list.len()
        invariant
            i <= list.len(),
            forall|j: int| 0 <= j < i ==> list.deep_view()[j] != text@,
        decreases list.len() - i,
    {
        if list[i] == *text {
            assert(list.deep_view()[i as int] == text@);
            return true;
        }
        i += 1;
    }
    false
}

/// The extensions in force between two peers: the intersection of what they
/// named.
pub fn active_extensions(local: &Vec<String>, peer: &Vec<String>) -> (active: Vec<String>)
    ensures
        active.deep_view() == shared_extensions(local.deep_view(), peer.deep_view()),
        active.deep_view().to_set() == local.deep_view().to_set().intersect(
            peer.deep_view().to_set(),
        ),
        active.deep_view().no_duplicates(),
{
    let mut active: Vec<String> = Vec::new();
    let mut i: usize = 0;
    assert(local.deep_view().take(0) =~= Seq::<Seq<char>>::empty());
    assert(active.deep_view() =~= Seq::<Seq<char>>::empty());
    while i < local.len()
        invariant
            i <= local.len(),
            active.deep_view() == shared_extensions(
                local.deep_view().take(i as int),
                peer.deep_view(),
            ),
        decreases local.len() - i,
    {
        let ghost before = active.deep_view();
        assert(local.deep_view().take(i + 1).drop_last() =~= local.deep_view().take(i as int));
        assert(local.deep_view().take(i + 1).last() == local[i as int]@);
        if names(peer, &local[i]) && !names(&active, &local[i]) {
            let text = local[i].clone();
            active.push(text);
            assert(active.deep_view() =~= before.push(local[i as int]@));
        }
        i += 1;
    }
    assert(local.deep_view().take(i as int) =~= local.deep_view());
    proof {
        shared_extensions_is_intersection(local.deep_view(), peer.deep_view());
    }
    active
}

/// Holds the peer's handshake against the local one. Equal versions give the
/// negotiated session with the extensions in force; any other version is
/// refused as incompatible.
pub fn negotiate(local: &Handshake, peer: &Handshake) -> (outcome: Result<
    Negotiated,
    ProtocolError,
>)
    ensures
        local.version == peer.version ==> outcome is Ok && outcome->Ok_0.version == local.version
            && outcome->Ok_0.extensions.deep_view() == shared_extensions(
            local@.extensions,
            peer@.extensions,
        ) && outcome->Ok_0.extensions.deep_view().to_set() == local@.extensions.to_set().intersect(
            peer@.extensions.to_set(),
        ),
        local.version != peer.version ==> outcome == Err::<Negotiated, ProtocolError>(
            ProtocolError::IncompatibleVersion { local: local.version, peer: peer.version },
        ),
{
    if local.version == peer.version {
        let extensions = active_extensions(&local.extensions, &peer.extensions);
        Ok(Negotiated { version: local.version, extensions })
    } else {
        Err(ProtocolError::IncompatibleVersion { local: local.version, peer: peer.version })
    }
}

impl Negotiated {
    /// Whether `extension` is in force, so that the messages that depend on
    /// it may be sent.
    pub fn allows(&self, extension: &String) -> (allowed: bool)
        ensures
            allowed == self.extensions.deep_view().contains(extension@),
    {
        names(&self.extensions, extension)
    }
}

} // verus!
