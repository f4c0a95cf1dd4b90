use vstd::prelude::*;
use supercluster::Supercluster;
use supercluster::SuperclusterBuilder;
use supercluster::SuperclusterError;
use supercluster::SuperclusterOptions;
use geojson::Feature;
use geojson::Value;
use crate::config::ClusterConfig;
use crate::config::ConfigError;

verus! {

#[verifier::external_type_specification]
#[verifier::external_body]
pub struct ExSupercluster(Supercluster);

#[verifier::external_type_specification]
#[verifier::external_body]
pub struct ExSuperclusterBuilder(SuperclusterBuilder);

#[verifier::external_type_specification]
#[verifier::external_body]
pub struct ExSuperclusterOptions(SuperclusterOptions);

#[verifier::external_type_specification]
#[verifier::external_body]
pub struct ExSuperclusterError(SuperclusterError);

#[verifier::external_type_specification]
#[verifier::external_body]
pub struct ExFeature(Feature);

/// The maximum zoom a builder has been given, if any.
pub uninterp spec fn builder_max_zoom(b: SuperclusterBuilder) -> Option<u8>;

/// The leaf size a builder has been given, if any.
pub uninterp spec fn builder_node_size(b: SuperclusterBuilder) -> Option<usize>;

/// The maximum zoom of a set of options.
pub uninterp spec fn options_max_zoom(o: SuperclusterOptions) -> u8;

/// The leaf size of a set of options.
pub uninterp spec fn options_node_size(o: SuperclusterOptions) -> usize;

/// The maximum zoom an index clusters at.
pub uninterp spec fn index_max_zoom(s: Supercluster) -> u8;

/// The leaf size of an index's KD-trees.
pub uninterp spec fn index_node_size(s: Supercluster) -> usize;

/// The number of features an index holds as its points.
pub uninterp spec fn index_point_count(s: Supercluster) -> nat;

/// Every tree the index keeps holds at least one entry.
pub uninterp spec fn index_ready(s: Supercluster) -> bool;

/// The ids for which the index finds children: the clusters it holds.
pub uninterp spec fn known_clusters(s: Supercluster) -> Set<nat>;

/// The zoom at which the index says a cluster splits.
pub uninterp spec fn expansion_zoom_of(s: Supercluster, cluster_id: nat) -> nat;

/// Relies on SuperclusterBuilder::min_zoom, which sets only the minimum zoom.
pub assume_specification[ SuperclusterBuilder::min_zoom ](b: SuperclusterBuilder, min_zoom: u8) -> (r: SuperclusterBuilder)
    ensures
        builder_max_zoom(r) == builder_max_zoom(b),
        builder_node_size(r) == builder_node_size(b),
;

/// Relies on SuperclusterBuilder::max_zoom, which sets only the maximum zoom.
pub assume_specification[ SuperclusterBuilder::max_zoom ](b: SuperclusterBuilder, max_zoom: u8) -> (r: SuperclusterBuilder)
    ensures
        builder_max_zoom(r) == Some(max_zoom),
        builder_node_size(r) == builder_node_size(b),
;

/// Relies on SuperclusterBuilder::min_points, which sets only the cluster size.
pub assume_specification[ SuperclusterBuilder::min_points ](b: SuperclusterBuilder, min_points: u8) -> (r: SuperclusterBuilder)
    ensures
        builder_max_zoom(r) == builder_max_zoom(b),
        builder_node_size(r) == builder_node_size(b),
;

/// Relies on SuperclusterBuilder::node_size, which sets only the leaf size.
pub assume_specification[ SuperclusterBuilder::node_size ](b: SuperclusterBuilder, node_size: usize) -> (r: SuperclusterBuilder)
    ensures
        builder_max_zoom(r) == builder_max_zoom(b),
        builder_node_size(r) == Some(node_size),
;

/// Relies on SuperclusterBuilder::build, which takes each set option and
/// fills the others with defaults (maximum zoom 16, leaf size 64).
pub assume_specification[ SuperclusterBuilder::build ](b: SuperclusterBuilder) -> (r: SuperclusterOptions)
    ensures
        options_max_zoom(r) == (match builder_max_zoom(b) {
            Some(z) => z,
            None => 16u8,
        }),
        options_node_size(r) == (match builder_node_size(b) {
            Some(n) => n,
            None => 64usize,
        }),
;

/// Relies on Supercluster::new, which keeps the options and makes an index
/// with no points and no trees, so that no id has children.
pub assume_specification[ Supercluster::new ](options: SuperclusterOptions) -> (r: Supercluster)
    ensures
        index_max_zoom(r) == options_max_zoom(options),
        index_node_size(r) == options_node_size(options),
        index_point_count(r) == 0,
        index_ready(r),
        known_clusters(r) == Set::<nat>::empty(),
;

/// How many coordinates a feature's point geometry has; none where the
/// feature carries no point geometry.
pub uninterp spec fn point_arity_of(f: Feature) -> Option<nat>;

/// Relies on geojson's `Feature::geometry` and `Value::Point`: reads the
/// length of a point geometry's coordinate vector.
#[verifier::external_body]
fn point_arity(f: &Feature) -> (r: Option<usize>)
    ensures
        r is None <==> point_arity_of(*f) is None,
        r matches Some(n) ==> point_arity_of(*f) == Some(n as nat),
{
    match &f.geometry {
        Some(g) => match &g.value {
            Value::Point(c) => Some(c.len()),
            _ => None,
        },
        None => None,
    }
}

/// Every point geometry among the features is a coordinate pair.
pub open spec fn all_pairs(points: Seq<Feature>) -> bool {
    forall|i: int| 0 <= i < points.len() ==> match #[trigger] point_arity_of(points[i]) {
        Some(n) => n == 2,
        None => true,
    }
}

/// Some feature carries a point geometry.
pub open spec fn has_point(points: Seq<Feature>) -> bool {
    exists|i: int| 0 <= i < points.len() && (#[trigger] point_arity_of(points[i])) is Some
}

/// Relies on Supercluster::load. It keeps the features as its points and
/// builds one tree per zoom level; its only errors are lookups of trees it
/// inserted the step before, so it returns `Ok`. It reads the first two
/// coordinates of every point geometry, so each must have two; its trees
/// take one from their entry count, so some feature must carry a point,
/// and then every tree holds an entry; and they split buckets down to the
/// leaf size, which must be at least one.
#[verifier::external_body]
fn build_index(index: &mut Supercluster, points: Vec<Feature>) -> (r: Result<(), SuperclusterError>)
    requires
        all_pairs(points@),
        has_point(points@),
        index_node_size(*old(index)) >= 1,
    ensures
        r is Ok,
        index_point_count(*final(index)) == points@.len(),
        index_max_zoom(*final(index)) == index_max_zoom(*old(index)),
        index_node_size(*final(index)) == index_node_size(*old(index)),
        index_ready(*final(index)),
    no_unwind
{
    match index.load(points) {
        Ok(_) => Ok(()),
        Err(e) => Err(e),
    }
}

/// Relies on the `points` field of Supercluster, the features it holds.
#[verifier::external_body]
fn point_count(index: &Supercluster) -> (r: usize)
    ensures
        r == index_point_count(*index),
{
    index.points.len()
}

/// Relies on Supercluster::get_children, used only to learn whether the
/// index holds a cluster with this id. It subtracts the index's point
/// count from the id, so the id must not be below it, and searches the tree
/// at the zoom the id carries, which must hold an entry if it exists.
#[verifier::external_body]
fn has_children(index: &Supercluster, cluster_id: usize) -> (r: bool)
    requires
        cluster_id >= index_point_count(*index),
        index_ready(*index),
    ensures
        r == known_clusters(*index).contains(cluster_id as nat),
{
    index.get_children(cluster_id).is_ok()
}

/// Relies on Supercluster::get_cluster_expansion_zoom. It starts one below
/// the zoom that the id carries (the id less the point count, modulo 32;
/// it must not be zero, or the subtraction underflows), and adds one per
/// step while the value is at or under the index's maximum zoom and the
/// cluster has children; the first step is taken when the id is known.
#[verifier::external_body]
fn climb_expansion_zoom(index: &Supercluster, cluster_id: usize) -> (r: usize)
    requires
        cluster_id >= index_point_count(*index),
        (cluster_id - index_point_count(*index)) % 32 >= 1,
        index_ready(*index),
    ensures
        r == expansion_zoom_of(*index, cluster_id as nat),
        encoded_zoom(cluster_id as int, index_point_count(*index) as int) - 1 <= r,
        encoded_zoom(cluster_id as int, index_point_count(*index) as int) - 1 <= index_max_zoom(*index)
            ==> r <= index_max_zoom(*index) + 1,
        encoded_zoom(cluster_id as int, index_point_count(*index) as int) - 1 <= index_max_zoom(*index)
            && known_clusters(*index).contains(cluster_id as nat)
            ==> r >= encoded_zoom(cluster_id as int, index_point_count(*index) as int),
{
    index.get_cluster_expansion_zoom(cluster_id)
}

/// The zoom that a cluster id carries, one above the level where the
/// cluster was made: the low five bits of the id less the point count.
pub open spec fn encoded_zoom(cluster_id: int, loaded: int) -> int {
    (cluster_id - loaded) % 32
}

/// The entry at the finer level that a cluster was seeded from.
pub open spec fn encoded_origin(cluster_id: int, loaded: int) -> int {
    (cluster_id - loaded) / 32
}

/// An id of the shape that a tree over `loaded` points under `config`
/// gives its clusters: past the point ids, and made at a level that the
/// tree has. Ids keep the zoom in five bits, so with a maximum zoom of 31
/// or more the clusters made at zoom 31 and above wrap onto lower zooms.
pub open spec fn is_cluster_id_shape(config: ClusterConfig, loaded: int, cluster_id: int) -> bool {
    &&& cluster_id >= loaded
    &&& config.min_zoom + 1 <= encoded_zoom(cluster_id, loaded) <= config.max_zoom + 1
}

/// The level at which the cluster with this id was made.
pub open spec fn creation_zoom(cluster_id: int, loaded: int) -> int {
    encoded_zoom(cluster_id, loaded) - 1
}

/// Cluster ids are unique: an id built from a seed entry and a zoom in
/// 1..=31, offset past the point ids, decodes back to that seed and zoom.
pub proof fn cluster_id_round_trip(origin: int, zoom: int, loaded: int)
    requires
        origin >= 0,
        loaded >= 0,
        1 <= zoom < 32,
    ensures
        encoded_origin(origin * 32 + zoom + loaded, loaded) == origin,
        encoded_zoom(origin * 32 + zoom + loaded, loaded) == zoom,
        origin * 32 + zoom + loaded >= loaded,
{
    assert((origin * 32 + zoom) / 32 == origin) by (nonlinear_arith)
        requires
            origin >= 0,
            0 <= zoom < 32,
    ;
    assert((origin * 32 + zoom) % 32 == zoom) by (nonlinear_arith)
        requires
            origin >= 0,
            0 <= zoom < 32,
    ;
}

/// Where a cluster came from: the entry it was seeded from and the zoom
/// its id carries.
#[derive(Debug, Clone, Copy, PartialEq, Eq, Structural)]
pub struct ClusterOrigin {
    pub index: usize,
    pub zoom: usize,
}

/// Splits a cluster id into the seed entry and the zoom it carries; point
/// ids (those under the point count) have no origin.
pub fn decode_cluster_id(cluster_id: usize, loaded: usize) -> (r: Option<ClusterOrigin>)
    ensures
        r is None <==> cluster_id < loaded,
        r matches Some(o) ==> o.index == encoded_origin(cluster_id as int, loaded as int)
            && o.zoom == encoded_zoom(cluster_id as int, loaded as int),
{
    if cluster_id < loaded {
        None
    } else {
        let d = cluster_id - loaded;
        Some(ClusterOrigin { index: d / 32, zoom: d % 32 })
    }
}

/// Why an engine operation failed.
#[derive(Debug, Clone, Copy, PartialEq, Eq, Structural)]
pub enum EngineError {
    /// No cluster of the built tree has this id.
    UnknownCluster,
    /// A point geometry does not hold exactly a longitude and a latitude.
    MalformedPoint,
    /// No feature carries a point geometry.
    NoPoints,
}

/// A clustering engine: the configuration it was made with and the index
/// built from it.
pub struct Engine {
    index: Supercluster,
    config: ClusterConfig,
}

impl Engine {
    /// The configuration is valid and the index was built from it.
    #[verifier::type_invariant]
    spec fn inv(&self) -> bool {
        &&& self.config.is_valid()
        &&& index_max_zoom(self.index) == self.config.max_zoom
        &&& index_node_size(self.index) >= 1
        &&& index_ready(self.index)
    }

    pub closed spec fn spec_config(&self) -> ClusterConfig {
        self.config
    }

    /// The number of features last loaded.
    pub closed spec fn spec_loaded(&self) -> int {
        index_point_count(self.index) as int
    }

    /// The leaf size of the index's trees.
    pub closed spec fn spec_leaf_size(&self) -> int {
        index_node_size(self.index) as int
    }

    /// The ids of the clusters the index holds.
    pub closed spec fn spec_known(&self) -> Set<nat> {
        known_clusters(self.index)
    }

    /// The zoom at which the index says the cluster splits.
    pub closed spec fn spec_expansion(&self, cluster_id: nat) -> nat {
        expansion_zoom_of(self.index, cluster_id)
    }

    /// Makes an engine from a configuration, refusing an invalid one. The
    /// builder carries the pixel radius and tile extent; the zoom range,
    /// cluster size and leaf size are set on it here. A leaf size of zero
    /// is given to the index as one.
    pub fn new(config: ClusterConfig, base: SuperclusterBuilder) -> (r: Result<Engine, ConfigError>)
        ensures
            r is Ok <==> config.is_valid(),
            r matches Err(e) ==> config.validate_spec() == Err::<(), ConfigError>(e),
            r matches Ok(e) ==> {
                &&& e.spec_config() == config
                &&& e.spec_loaded() == 0
                &&& e.spec_leaf_size() == config.leaf_size()
                &&& e.spec_known() == Set::<nat>::empty()
            },
    {
        match config.validate() {
            Err(e) => Err(e),
            Ok(()) => {
                let leaf: usize = if config.node_size == 0 {
                    1
                } else {
                    config.node_size
                };
                let options = base
                    .min_zoom(config.min_zoom)
                    .max_zoom(config.max_zoom)
                    .min_points(config.min_points)
                    .node_size(leaf)
                    .build();
                Ok(Engine { index: Supercluster::new(options), config })
            },
        }
    }

    pub fn config(&self) -> (r: ClusterConfig)
        ensures
            r == self.spec_config(),
            r.is_valid(),
    {
        proof {
            use_type_invariant(self);
        }
        self.config
    }

    pub fn loaded(&self) -> (r: usize)
        ensures
            r == self.spec_loaded(),
    {
        point_count(&self.index)
    }

    /// The built index, for bounding-box queries.
    pub fn index(&self) -> &Supercluster {
        &self.index
    }

    /// Replaces the points and rebuilds every zoom level from them. Points
    /// whose geometry is not a coordinate pair are refused, as is a set with
    /// no point at all; the engine is then left as it was.
    pub fn load(&mut self, points: Vec<Feature>) -> (r: Result<(), EngineError>)
        ensures
            r is Ok <==> all_pairs(points@) && has_point(points@),
            !all_pairs(points@) ==> r == Err::<(), EngineError>(EngineError::MalformedPoint),
            all_pairs(points@) && !has_point(points@) ==> r == Err::<(), EngineError>(
                EngineError::NoPoints,
            ),
            r is Err ==> *final(self) == *old(self),
            r is Ok ==> final(self).spec_loaded() == points.len() && final(self).spec_config()
                == old(self).spec_config() && final(self).spec_leaf_size() == old(self).spec_leaf_size(),
    {
        proof {
            use_type_invariant(&*self);
        }
        let mut any_point = false;
        let mut i: usize = 0;
        while i < points.len()
            invariant
                i <= points.len(),
                forall|k: int| 0 <= k < i ==> match #[trigger] point_arity_of(points@[k]) {
                    Some(n) => n == 2,
                    None => true,
                },
                any_point <==> exists|k: int| 0 <= k < i && (#[trigger] point_arity_of(points@[k])) is Some,
            decreases points.len() - i,
        {
            match point_arity(&points[i]) {
                Some(n) => {
                    if n != 2 {
                        return Err(EngineError::MalformedPoint);
                    }
                    any_point = true;
                },
                None => {},
            }
            i = i + 1;
        }
        if !any_point {
            return Err(EngineError::NoPoints);
        }
        let _ = build_index(&mut self.index, points);
        Ok(())
    }

    /// The zoom at which the cluster with this id splits apart. Ids that are
    /// not of a cluster's shape, or that the index does not hold, are
    /// refused.
    pub fn get_cluster_expansion_zoom(&self, cluster_id: usize) -> (r: Result<usize, EngineError>)
        ensures
            r is Ok <==> is_cluster_id_shape(self.spec_config(), self.spec_loaded(), cluster_id as int)
                && self.spec_known().contains(cluster_id as nat),
            r is Err ==> r == Err::<usize, EngineError>(EngineError::UnknownCluster),
            r matches Ok(z) ==> {
                &&& z == self.spec_expansion(cluster_id as nat)
                &&& creation_zoom(cluster_id as int, self.spec_loaded()) < z
                &&& z <= self.spec_config().max_zoom + 1
            },
    {
        proof {
            use_type_invariant(self);
        }
        match decode_cluster_id(cluster_id, point_count(&self.index)) {
            None => Err(EngineError::UnknownCluster),
            Some(origin) => {
                let lo: usize = self.config.min_zoom as usize + 1;
                let hi: usize = self.config.max_zoom as usize + 1;
                if origin.zoom < lo || origin.zoom > hi {
                    Err(EngineError::UnknownCluster)
                } else if !has_children(&self.index, cluster_id) {
                    Err(EngineError::UnknownCluster)
                } else {
                    Ok(climb_expansion_zoom(&self.index, cluster_id))
                }
            },
        }
    }
}

} // verus!
