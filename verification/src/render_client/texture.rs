//! A texture and the views made of it.

use crate::error::Error;
use crate::render_client::resource::{Device, Resource, TextureDescriptor, TextureId, TextureViewDescriptor, TextureViewId};
use vstd::prelude::*;

verus! {

#[derive(Debug)]
pub struct Texture {
    texture: TextureId,
    views: Vec<TextureViewId>,
}

impl Texture {
    /// The texture's handle.
    pub closed spec fn spec_id(&self) -> TextureId {
        self.texture
    }

    /// The handles of the views, in the order of their creation.
    pub closed spec fn views(&self) -> Seq<TextureViewId> {
        self.views@
    }

    /// The texture's handle.
    #[verifier::when_used_as_spec(spec_id)]
    pub fn id(&self) -> (id: TextureId)
        ensures
            id == self.spec_id(),
    {
        self.texture
    }

    /// The number of views made of the texture.
    pub fn view_count(&self) -> (count: usize)
        ensures
            count == self.views().len(),
    {
        self.views.len()
    }

    /// Creates a texture on `device`. It has no views yet.
    pub fn new(device: &mut Device, desc: TextureDescriptor) -> (texture: Texture)
        ensures
            final(device)@ == old(device)@.push(Resource::Texture(desc)),
            texture.id().0 == old(device)@.len(),
            texture.views() == Seq::<TextureViewId>::empty(),
    {
        let texture = device.create_texture(desc);
        Texture { texture, views: Vec::new() }
    }

    /// Creates a view of the texture, and returns its place among the
    /// texture's views.
    pub fn create_view(&mut self, device: &mut Device, desc: TextureViewDescriptor) -> (r: Result<
        usize,
        Error,
    >)
        requires
            crate::render_client::resource::is_texture(old(device)@, old(self).id()),
        ensures
            r matches Ok(index) && index == old(self).views().len(),
            final(self).id() == old(self).id(),
            final(self).views() == old(self).views().push(
                TextureViewId(old(device)@.len() as usize),
            ),
            final(device)@ == old(device)@.push(
                Resource::TextureView { texture: old(self).id(), desc },
            ),
    {
        let texture_view = device.create_texture_view(self.texture, desc);
        self.views.push(texture_view);

        Ok(self.views.len() - 1)
    }

    /// The view at `view_index`, which has to be the place of a view.
    pub fn get_view(&self, view_index: usize) -> (view: Option<&TextureViewId>)
        requires
            view_index < self.views().len(),
        ensures
            view == Some(&self.views()[view_index as int]),
    {
        Some(&self.views[view_index])
    }
}

} // verus!
