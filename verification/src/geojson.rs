use vstd::prelude::*;
use crate::geo_json_reader::Features;

verus! {

/// Holds GeoJSON region data so that coordinates can be mapped to a
/// political description. The host parses the raw documents and hands the
/// reduced feature lists over.
pub struct GeoJson {
    pub world_features: Option<Features>,
    pub us_features: Option<Features>,
}

impl GeoJson {
    pub fn new() -> (r: GeoJson)
        ensures
            r.world_features is None,
            r.us_features is None,
    {
        GeoJson { world_features: None, us_features: None }
    }

    /// Stores the world region data the host parsed.
    pub fn load_world_data(&mut self, features: Features)
        ensures
            final(self).world_features is Some,
            final(self).world_features.arrow_Some_0() == features,
            final(self).us_features == old(self).us_features,
    {
        self.world_features = Some(features);
    }

    /// Stores the United States region data the host parsed.
    pub fn load_us_data(&mut self, features: Features)
        ensures
            final(self).us_features is Some,
            final(self).us_features.arrow_Some_0() == features,
            final(self).world_features == old(self).world_features,
    {
        self.us_features = Some(features);
    }
}

} // verus!
