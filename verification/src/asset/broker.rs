//! Asset broker: an ordered list of asset sources, highest priority first,
//! with swap-based reordering and first-hit asset lookup.

use vstd::prelude::*;

verus! {

/// A supplier of assets located by a text path.
///
/// A source could be the file system, a database, a blob and so on,
/// depending on the trait implementation. Each source carries an identity
/// handle, a number that stands for the source itself: two sources with the
/// same configuration but different handles are distinct, and a broker
/// never holds two sources with the same handle.
pub trait KAssetSource: Sized {
    /// The source's identity handle. Left unconstrained unless the
    /// implementation says what it is.
    open spec fn id_spec(&self) -> u64 {
        arbitrary()
    }

    /// Whether the source holds an asset under `path`. Left unconstrained
    /// unless the implementation says what it is.
    open spec fn has_asset_spec(&self, path: Seq<char>) -> bool {
        arbitrary()
    }

    /// The bytes of the asset the source holds under `path`. Left
    /// unconstrained unless the implementation says what they are.
    open spec fn asset_spec(&self, path: Seq<char>) -> Seq<u8> {
        arbitrary()
    }

    /// Get the source's identity handle.
    fn get_id(&self) -> (r: u64)
        ensures
            r == self.id_spec(),
    ;

    /// Get a text describing the source; what it holds is the
    /// implementation's own affair.
    fn get_metadata(&self) -> String;

    /// Verify if the source holds an asset under `path`.
    fn has_asset(&self, path: &String) -> (r: bool)
        ensures
            r == self.has_asset_spec(path@),
    ;

    /// Fetch the asset under `path`. An implementation may fail even for a
    /// path it reported holding; what it returns on success are the
    /// asset's bytes.
    fn get_asset(&self, path: &String) -> (r: Result<Vec<u8>, &'static str>)
        ensures
            r matches Ok(b) ==> b@ == self.asset_spec(path@),
    ;
}

/// True when `i` is the position of the highest-priority source in `ss`
/// that holds an asset under `path`.
pub open spec fn spec_first_source_with<S: KAssetSource>(
    ss: Seq<S>,
    path: Seq<char>,
    i: int,
) -> bool {
    &&& 0 <= i < ss.len()
    &&& ss[i].has_asset_spec(path)
    &&& forall|j: int| 0 <= j < i ==> !ss[j].has_asset_spec(path)
}

/// Middle man between any count of [`KAssetSource`] and their consumers,
/// supplying assets according to source priority.
///
/// Sources have priorities (position 0 is the highest) and the broker
/// fetches an asset from the highest-priority source that holds it. This
/// is useful when handling mods or other asset modification: the base
/// files should be the lowest priority and the mods the highest.
pub struct KAssetBroker<S: KAssetSource> {
    /// Sources, position 0 being the highest priority.
    sources: Vec<S>,
}

impl<S: KAssetSource> KAssetBroker<S> {
    /// Well-formed broker: no two sources share an identity handle.
    /// Constructors establish it and every method preserves it.
    pub open spec fn wf(&self) -> bool {
        forall|i: int, j: int|
            0 <= i < j < self.sources_view().len() ==> self.sources_view()[i].id_spec()
                != self.sources_view()[j].id_spec()
    }

    /// The broker's sources, highest priority first.
    pub closed spec fn sources_view(&self) -> Seq<S> {
        self.sources@
    }

    /// Create a new broker without any source.
    pub fn new() -> (r: KAssetBroker<S>)
        ensures
            r.sources_view() == Seq::<S>::empty(),
            r.wf(),
    {
        let sources: Vec<S> = Vec::new();
        KAssetBroker { sources }
    }

    /// Add a source to the broker, last in priority.
    ///
    /// Returns `Ok` with the priority of the source added, or `Err`, the
    /// broker unchanged, when a source with the same identity is already
    /// in the broker.
    pub fn add_source(&mut self, source: S) -> (r: Result<usize, &'static str>)
        requires
            old(self).wf(),
        ensures
            final(self).wf(),
            r matches Ok(p) ==> p == old(self).sources_view().len() && final(self).sources_view()
                == old(self).sources_view().push(source) && (forall|k: int|
                0 <= k < old(self).sources_view().len() ==> old(self).sources_view()[k].id_spec()
                    != source.id_spec()),
            r matches Err(m) ==> m@ == "Source already exists in broker!"@ && final(self).sources_view() == old(self).sources_view() && (exists|k: int|
                0 <= k < old(self).sources_view().len() && old(self).sources_view()[k].id_spec()
                    == source.id_spec()),
    {
        if !self.has_source(&source) {
            let priority = self.sources.len();
            self.sources.push(source);
            Ok(priority)
        } else {
            Err("Source already exists in broker!")
        }
    }

    /// Remove a source from the broker by identity.
    ///
    /// Returns `Ok` with the priority the source held, or `Err`, the
    /// broker unchanged, when no source with that identity is in the
    /// broker.
    pub fn remove_source(&mut self, source: &S) -> (r: Result<usize, &'static str>)
        requires
            old(self).wf(),
        ensures
            final(self).wf(),
            r matches Ok(p) ==> 0 <= p < old(self).sources_view().len() && old(self).sources_view()[p as int].id_spec() == source.id_spec() && final(self).sources_view()
                == old(self).sources_view().remove(p as int),
            r matches Err(m) ==> m@ == "Source not found in broker!"@ && final(self).sources_view()
                == old(self).sources_view() && (forall|k: int|
                0 <= k < old(self).sources_view().len() ==> old(self).sources_view()[k].id_spec()
                    != source.id_spec()),
    {
        match self.get_source_priority(source) {
            Some(priority) => {
                self.sources.remove(priority);
                Ok(priority)
            },
            None => Err("Source not found in broker!"),
        }
    }

    /// Set a source's priority, shifting the priority of the sources it
    /// passes over by one.
    ///
    /// Returns `Ok` with the new priority of the source, or `Err`, the
    /// broker unchanged, when the priority is not below the count of
    /// sources or when no source with that identity is in the broker.
    pub fn set_source_priority(&mut self, source: &S, priority: usize) -> (r: Result<
        usize,
        &'static str,
    >)
        requires
            old(self).wf(),
        ensures
            final(self).wf(),
            r matches Ok(p) ==> p == priority && (exists|pos: int|
                #![auto]
                0 <= pos < old(self).sources_view().len() && old(self).sources_view()[pos].id_spec() == source.id_spec() && final(self).sources_view()
                    == old(self).sources_view().remove(pos).insert(
                    priority as int,
                    old(self).sources_view()[pos],
                )),
            r is Err ==> final(self).sources_view() == old(self).sources_view(),
            r matches Err(m) ==> ((forall|k: int|
                0 <= k < old(self).sources_view().len() ==> old(self).sources_view()[k].id_spec()
                    != source.id_spec()) ==> m@ == "Source not found in broker!"@),
            r matches Err(m) ==> ((exists|k: int|
                0 <= k < old(self).sources_view().len() && old(self).sources_view()[k].id_spec()
                    == source.id_spec()) ==> m@
                == "New priority is higher than broker sources length!"@),
            r is Ok <==> priority < old(self).sources_view().len() && (exists|k: int|
                0 <= k < old(self).sources_view().len() && old(self).sources_view()[k].id_spec()
                    == source.id_spec()),
    {
        match self.get_source_priority(source) {
            Some(position) => {
                if priority < self.sources.len() {
                    // Moving the source to its new position shifts every
                    // source it passes over by one, as a run of neighbour
                    // swaps would.
                    let moved = self.sources.remove(position);
                    self.sources.insert(priority, moved);
                    Ok(priority)
                } else {
                    Err("New priority is higher than broker sources length!")
                }
            },
            None => Err("Source not found in broker!"),
        }
    }

    /// Get an immutable reference to the broker's source vector, highest
    /// priority first.
    pub fn get_sources(&self) -> (r: &Vec<S>)
        ensures
            r@ == self.sources_view(),
    {
        &self.sources
    }

    /// Fetch an asset by path from the highest-priority source that holds
    /// it.
    ///
    /// Returns that source's asset bytes, or `Err` when no source holds
    /// the path or the holding source failed to deliver it.
    pub fn get_asset(&self, path: &String) -> (r: Result<Vec<u8>, &'static str>)
        ensures
            (forall|i: int|
                0 <= i < self.sources_view().len() ==> !self.sources_view()[i].has_asset_spec(
                    path@,
                )) ==> (r matches Err(m) && m@ == "Asset not found!"@),
            r matches Ok(b) ==> exists|i: int|
                #![auto]
                spec_first_source_with(self.sources_view(), path@, i) && b@
                    == self.sources_view()[i].asset_spec(path@),
    {
        let n = self.sources.len();
        let mut k: usize = 0;
        while k < n
            invariant
                k <= n,
                n == self.sources_view().len(),
                forall|j: int| 0 <= j < k ==> !self.sources_view()[j].has_asset_spec(path@),
            decreases n - k,
        {
            if self.sources[k].has_asset(path) {
                proof {
                    assert(spec_first_source_with(self.sources_view(), path@, k as int));
                }
                return self.sources[k].get_asset(path);
            }
            k = k + 1;
        }
        Err("Asset not found!")
    }

    /// Get the priority (the position) of the given source in the broker,
    /// located by identity, or `None` when it is not in the broker.
    pub fn get_source_priority(&self, source: &S) -> (r: Option<usize>)
        ensures
            r matches Some(p) ==> 0 <= p < self.sources_view().len()
                && self.sources_view()[p as int].id_spec() == source.id_spec(),
            r is None ==> forall|k: int|
                0 <= k < self.sources_view().len() ==> self.sources_view()[k].id_spec()
                    != source.id_spec(),
    {
        let id = source.get_id();
        let n = self.sources.len();
        let mut k: usize = 0;
        while k < n
            invariant
                k <= n,
                n == self.sources_view().len(),
                id == source.id_spec(),
                forall|j: int|
                    0 <= j < k ==> self.sources_view()[j].id_spec() != source.id_spec(),
            decreases n - k,
        {
            if self.sources[k].get_id() == id {
                return Some(k);
            }
            k = k + 1;
        }
        None
    }

    /// Verify if the broker contains the given source, located by
    /// identity.
    pub fn has_source(&self, source: &S) -> (r: bool)
        ensures
            r <==> exists|k: int|
                0 <= k < self.sources_view().len() && self.sources_view()[k].id_spec()
                    == source.id_spec(),
    {
        match self.get_source_priority(source) {
            Some(_) => true,
            None => false,
        }
    }
}

} // verus!
