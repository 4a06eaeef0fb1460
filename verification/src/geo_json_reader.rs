use vstd::prelude::*;

verus! {

/// One named region read from a GeoJSON document, reduced to the fields the
/// analyzer consults.
pub struct Feature {
    /// The GeoJSON "type" of the feature.
    pub feature_type: String,
    /// The region name from the feature's properties.
    pub name: String,
    /// The GeoJSON "type" of the feature's geometry.
    pub geometry_type: String,
}

/// The feature list of one GeoJSON document.
pub struct Features {
    pub features: Vec<Feature>,
}

/// Holds region data so that coordinates can be mapped to a political
/// description. The host parses the GeoJSON documents and hands the reduced
/// feature lists over.
pub struct GeoJsonReader {
    pub world_features: Option<Features>,
    pub us_features: Option<Features>,
    pub canada_features: Option<Features>,
}

impl GeoJsonReader {
    pub fn new() -> (r: GeoJsonReader)
        ensures
            r.world_features is None,
            r.us_features is None,
            r.canada_features is None,
    {
        GeoJsonReader { world_features: None, us_features: None, canada_features: None }
    }

    /// Region downloads are left to the host; a fresh reader starts empty.
    pub fn initialize(&mut self)
        ensures
            *final(self) == *old(self),
    {
    }
}

} // verus!
