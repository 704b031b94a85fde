//! Container images and the build handle attached to an application.

use vstd::prelude::*;

verus! {

/// A container image: registry coordinates plus the commit it was built
/// from.
#[derive(Clone, Debug)]
pub struct Image {
    pub name: String,
    pub tag: String,
    pub commit_id: String,
    pub repository_name: String,
    pub registry_secret_name: String,
}

/// Mathematical view of an [`Image`].
pub struct ImageView {
    pub name: Seq<char>,
    pub tag: Seq<char>,
    pub commit_id: Seq<char>,
    pub repository_name: Seq<char>,
    pub registry_secret_name: Seq<char>,
}

impl ImageView {
    /// The full image reference, `name:tag`.
    pub open spec fn full_name(self) -> Seq<char> {
        self.name + seq![':'] + self.tag
    }
}

impl View for Image {
    type V = ImageView;

    open spec fn view(&self) -> ImageView {
        ImageView {
            name: self.name@,
            tag: self.tag@,
            commit_id: self.commit_id@,
            repository_name: self.repository_name@,
            registry_secret_name: self.registry_secret_name@,
        }
    }
}

impl Image {
    /// The full image reference, `name:tag`.
    pub fn full_image_name_with_tag(&self) -> (r: String)
        ensures
            r@ == self@.full_name(),
    {
        let mut s = self.name.clone();
        proof {
            reveal_strlit(":");
        }
        s.append(":");
        s.append(self.tag.as_str());
        assert(s@ =~= self@.full_name());
        s
    }
}

/// The build handle of an application: what the build collaborator consumes
/// to produce and push the application's image.
#[derive(Clone, Debug)]
pub struct Build {
    pub image: Image,
}

/// Mathematical view of a [`Build`].
pub struct BuildView {
    pub image: ImageView,
}

impl View for Build {
    type V = BuildView;

    open spec fn view(&self) -> BuildView {
        BuildView { image: self.image@ }
    }
}

} // verus!
