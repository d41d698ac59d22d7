//! The closed set of demo scenes the renderer knows how to set up, and the
//! name each one goes by. The scene geometry itself is assembled by unverified
//! collaborator code; the core only needs the selector and its stable name,
//! which picks the camera-configuration file for the scene.
use vstd::prelude::*;

verus! {

/// Selector for one of the built-in demo scenes.
#[derive(Clone, Copy, Debug, PartialEq, Eq, Structural)]
pub enum Scene {
    BouncingSpheres,
    CheckeredSpheres,
    Earth,
    PerlinSpheres,
    Quads,
    SimpleLight,
    CornellBox,
    CornellSmoke,
    FinalScene,
}

/// The stable name of each scene, as used for configuration-file lookup.
pub open spec fn scene_name(s: Scene) -> Seq<char> {
    match s {
        Scene::BouncingSpheres => "bouncing_spheres"@,
        Scene::CheckeredSpheres => "checkered_spheres"@,
        Scene::Earth => "earth"@,
        Scene::PerlinSpheres => "perlin_spheres"@,
        Scene::Quads => "quads"@,
        Scene::SimpleLight => "simple_light"@,
        Scene::CornellBox => "cornell_box"@,
        Scene::CornellSmoke => "cornell_smoke"@,
        Scene::FinalScene => "final_scene"@,
    }
}

impl Scene {
    /// The name of the scene's camera-configuration file: the scene's stable
    /// name with the configuration format's extension.
    pub fn settings_file_name(&self) -> (s: String)
        ensures
            s@ == scene_name(*self) + ".json"@,
    {
        let mut s = self.to_str().to_owned();
        s.append(".json");
        s
    }

    /// The scene's stable name.
    pub fn to_str(&self) -> (r: &str)
        ensures
            r@ == scene_name(*self),
    {
        match self {
            Scene::BouncingSpheres => "bouncing_spheres",
            Scene::CheckeredSpheres => "checkered_spheres",
            Scene::Earth => "earth",
            Scene::PerlinSpheres => "perlin_spheres",
            Scene::Quads => "quads",
            Scene::SimpleLight => "simple_light",
            Scene::CornellBox => "cornell_box",
            Scene::CornellSmoke => "cornell_smoke",
            Scene::FinalScene => "final_scene",
        }
    }
}

} // verus!
