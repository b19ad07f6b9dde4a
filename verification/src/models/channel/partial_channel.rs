//! Sparse patches for channels.

use vstd::prelude::*;

use crate::models::server::PermissionOverride;

verus! {

/// A sparse patch for a channel: `Some` replaces the field, `None` leaves
/// it unchanged.
#[derive(Debug, PartialEq)]
pub struct PartialChannel {
    pub name: Option<String>,
    pub description: Option<String>,
    pub nsfw: Option<bool>,
    pub default_permissions: Option<PermissionOverride>,
}

/// The mathematical value of a [`PartialChannel`].
pub struct PartialChannelView {
    pub name: Option<Seq<char>>,
    pub description: Option<Seq<char>>,
    pub nsfw: Option<bool>,
    pub default_permissions: Option<PermissionOverride>,
}

impl View for PartialChannel {
    type V = PartialChannelView;

    open spec fn view(&self) -> PartialChannelView {
        PartialChannelView {
            name: self.name.deep_view(),
            description: self.description.deep_view(),
            nsfw: self.nsfw,
            default_permissions: self.default_permissions,
        }
    }
}

impl DeepView for PartialChannel {
    type V = PartialChannelView;

    open spec fn deep_view(&self) -> PartialChannelView {
        self.view()
    }
}

impl Clone for PartialChannel {
    fn clone(&self) -> (res: Self)
        ensures
            res@ == self@,
    {
        PartialChannel {
            name: self.name.clone(),
            description: self.description.clone(),
            nsfw: self.nsfw,
            default_permissions: self.default_permissions,
        }
    }
}

} // verus!
