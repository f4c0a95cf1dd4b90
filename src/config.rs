use vstd::prelude::*;

verus! {

/// Why a clustering configuration was refused.
#[derive(Debug, Clone, Copy, PartialEq, Eq, Structural)]
pub enum ConfigError {
    /// The minimum zoom lies above the maximum zoom.
    ZoomBounds,
    /// A cluster was asked to hold fewer than one point.
    MinPoints,
}

/// The integer part of a clustering configuration: zoom range, the number
/// of points a cluster needs, and the leaf size of the per-level index.
#[derive(Debug, Clone, Copy, PartialEq, Eq, Structural)]
pub struct ClusterConfig {
    pub min_zoom: u8,
    pub max_zoom: u8,
    pub min_points: u8,
    pub node_size: usize,
}

pub const DEFAULT_MIN_ZOOM: u8 = 0;
pub const DEFAULT_MAX_ZOOM: u8 = 16;
pub const DEFAULT_MIN_POINTS: u8 = 2;
pub const DEFAULT_NODE_SIZE: usize = 64;

impl ClusterConfig {
    /// A configuration that a tree can be built from.
    pub open spec fn is_valid(&self) -> bool {
        &&& self.min_zoom <= self.max_zoom
        &&& self.min_points >= 1
    }

    /// The leaf size the index is given: a leaf size of zero is read as
    /// one, which changes only the index's speed.
    pub open spec fn leaf_size(&self) -> usize {
        if self.node_size == 0 {
            1
        } else {
            self.node_size
        }
    }

    /// What `validate` returns.
    pub open spec fn validate_spec(&self) -> Result<(), ConfigError> {
        if self.min_zoom > self.max_zoom {
            Err(ConfigError::ZoomBounds)
        } else if self.min_points < 1 {
            Err(ConfigError::MinPoints)
        } else {
            Ok(())
        }
    }

    pub fn new(min_zoom: u8, max_zoom: u8, min_points: u8, node_size: usize) -> (r: ClusterConfig)
        ensures
            r.min_zoom == min_zoom,
            r.max_zoom == max_zoom,
            r.min_points == min_points,
            r.node_size == node_size,
    {
        ClusterConfig { min_zoom, max_zoom, min_points, node_size }
    }

    /// Checks the configuration: zoom bounds first, then cluster size.
    pub fn validate(&self) -> (r: Result<(), ConfigError>)
        ensures
            r == self.validate_spec(),
            r is Ok <==> self.is_valid(),
    {
        if self.min_zoom > self.max_zoom {
            Err(ConfigError::ZoomBounds)
        } else if self.min_points < 1 {
            Err(ConfigError::MinPoints)
        } else {
            Ok(())
        }
    }
}

impl Default for ClusterConfig {
    fn default() -> (r: ClusterConfig)
        ensures
            r.min_zoom == DEFAULT_MIN_ZOOM,
            r.max_zoom == DEFAULT_MAX_ZOOM,
            r.min_points == DEFAULT_MIN_POINTS,
            r.node_size == DEFAULT_NODE_SIZE,
            r.is_valid(),
    {
        ClusterConfig {
            min_zoom: DEFAULT_MIN_ZOOM,
            max_zoom: DEFAULT_MAX_ZOOM,
            min_points: DEFAULT_MIN_POINTS,
            node_size: DEFAULT_NODE_SIZE,
        }
    }
}

} // verus!
