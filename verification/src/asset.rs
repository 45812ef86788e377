//! Descriptions of drawable assets, handed by the caller to the render
//! layer at startup. The core never opens the files: a sprite's
//! `VisualIdentity` key only has to match one of these ids for its
//! instances to be drawn.
use vstd::prelude::*;

verus! {

/// One animated sprite asset: the key entities name it by, and the image
/// file of each animation frame.
pub struct SpriteAsset {
    pub id: String,
    pub frames: Vec<String>,
}

impl SpriteAsset {
    pub fn new(id: &str, frames: Vec<&str>) -> (a: SpriteAsset)
        ensures
            a.id@ == id@,
            a.frames@.len() == frames@.len(),
            forall|i: int| 0 <= i < frames@.len() ==> (#[trigger] a.frames@[i])@ == frames@[i]@,
    {
        let mut fs: Vec<String> = Vec::new();
        let mut j: usize = 0;
        while j < frames.len()
            invariant
                j <= frames@.len(),
                fs@.len() == j,
                forall|i: int| 0 <= i < j ==> (#[trigger] fs@[i])@ == frames@[i]@,
            decreases frames@.len() - j,
        {
            fs.push(frames[j].to_owned());
            j = j + 1;
        }
        SpriteAsset { id: id.to_owned(), frames: fs }
    }
}

/// Which pipeline stage a shader binary feeds.
#[derive(Clone, Copy, PartialEq, Eq, Structural, Debug)]
pub enum ShaderStage {
    Vertex,
    Fragment,
    Compute,
}

} // verus!
