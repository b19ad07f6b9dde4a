//! Rich embeds attached to messages: websites, media and plain text cards.

use vstd::prelude::*;

use crate::models::file::File;
use crate::models::file::FileView;

verus! {

/// How large an embedded image is rendered.
#[derive(Debug, Clone, Copy, PartialEq)]
pub enum Size {
    Large,
    Preview,
}

/// What kind of remote media a third-party content link resolves to.
#[derive(Debug, Clone, Copy, PartialEq)]
pub enum ContentType {
    Unspecified,
    Channel,
    Video,
    Clip,
    Album,
    Track,
}

/// Special handling for a handful of well-known remote content hosts.
#[derive(Debug, PartialEq)]
pub enum RemoteContent {
    Unspecified,
    GIF,
    YouTube { id: String, timestamp: Option<String> },
    Lightspeed { id: String, content_type: ContentType },
    Twitch { id: String, content_type: ContentType },
    Spotify { id: String, content_type: String },
    Soundcloud,
    Bandcamp { id: String, content_type: ContentType },
    Streamable { id: String },
}

/// The mathematical value of a [`RemoteContent`].
pub enum RemoteContentView {
    Unspecified,
    GIF,
    YouTube { id: Seq<char>, timestamp: Option<Seq<char>> },
    Lightspeed { id: Seq<char>, content_type: ContentType },
    Twitch { id: Seq<char>, content_type: ContentType },
    Spotify { id: Seq<char>, content_type: Seq<char> },
    Soundcloud,
    Bandcamp { id: Seq<char>, content_type: ContentType },
    Streamable { id: Seq<char> },
}

impl View for RemoteContent {
    type V = RemoteContentView;

    open spec fn view(&self) -> RemoteContentView {
        match self {
            RemoteContent::Unspecified => RemoteContentView::Unspecified,
            RemoteContent::GIF => RemoteContentView::GIF,
            RemoteContent::YouTube { id, timestamp } => RemoteContentView::YouTube {
                id: id@,
                timestamp: timestamp.deep_view(),
            },
            RemoteContent::Lightspeed { id, content_type } => RemoteContentView::Lightspeed {
                id: id@,
                content_type: *content_type,
            },
            RemoteContent::Twitch { id, content_type } => RemoteContentView::Twitch {
                id: id@,
                content_type: *content_type,
            },
            RemoteContent::Spotify { id, content_type } => RemoteContentView::Spotify {
                id: id@,
                content_type: content_type@,
            },
            RemoteContent::Soundcloud => RemoteContentView::Soundcloud,
            RemoteContent::Bandcamp { id, content_type } => RemoteContentView::Bandcamp {
                id: id@,
                content_type: *content_type,
            },
            RemoteContent::Streamable { id } => RemoteContentView::Streamable { id: id@ },
        }
    }
}

impl DeepView for RemoteContent {
    type V = RemoteContentView;

    open spec fn deep_view(&self) -> RemoteContentView {
        self.view()
    }
}

impl Clone for RemoteContent {
    fn clone(&self) -> (res: Self)
        ensures
            res@ == self@,
    {
        match self {
            RemoteContent::Unspecified => RemoteContent::Unspecified,
            RemoteContent::GIF => RemoteContent::GIF,
            RemoteContent::YouTube { id, timestamp } => RemoteContent::YouTube {
                id: id.clone(),
                timestamp: timestamp.clone(),
            },
            RemoteContent::Lightspeed { id, content_type } => RemoteContent::Lightspeed {
                id: id.clone(),
                content_type: *content_type,
            },
            RemoteContent::Twitch { id, content_type } => RemoteContent::Twitch {
                id: id.clone(),
                content_type: *content_type,
            },
            RemoteContent::Spotify { id, content_type } => RemoteContent::Spotify {
                id: id.clone(),
                content_type: content_type.clone(),
            },
            RemoteContent::Soundcloud => RemoteContent::Soundcloud,
            RemoteContent::Bandcamp { id, content_type } => RemoteContent::Bandcamp {
                id: id.clone(),
                content_type: *content_type,
            },
            RemoteContent::Streamable { id } => RemoteContent::Streamable { id: id.clone() },
        }
    }
}

/// An image referenced from a website embed.
#[derive(Debug, PartialEq)]
pub struct Image {
    pub url: String,
    pub width: usize,
    pub height: usize,
    pub size: Size,
}

/// The mathematical value of an [`Image`].
pub struct ImageView {
    pub url: Seq<char>,
    pub width: usize,
    pub height: usize,
    pub size: Size,
}

impl View for Image {
    type V = ImageView;

    open spec fn view(&self) -> ImageView {
        ImageView { url: self.url@, width: self.width, height: self.height, size: self.size }
    }
}

impl DeepView for Image {
    type V = ImageView;

    open spec fn deep_view(&self) -> ImageView {
        self.view()
    }
}

impl Clone for Image {
    fn clone(&self) -> (res: Self)
        ensures
            res@ == self@,
    {
        Image {
            url: self.url.clone(),
            width: self.width,
            height: self.height,
            size: self.size,
        }
    }
}

/// A video referenced from a website embed.
#[derive(Debug, PartialEq)]
pub struct Video {
    pub url: String,
    pub width: usize,
    pub height: usize,
}

/// The mathematical value of a [`Video`].
pub struct VideoView {
    pub url: Seq<char>,
    pub width: usize,
    pub height: usize,
}

impl View for Video {
    type V = VideoView;

    open spec fn view(&self) -> VideoView {
        VideoView { url: self.url@, width: self.width, height: self.height }
    }
}

impl DeepView for Video {
    type V = VideoView;

    open spec fn deep_view(&self) -> VideoView {
        self.view()
    }
}

impl Clone for Video {
    fn clone(&self) -> (res: Self)
        ensures
            res@ == self@,
    {
        Video { url: self.url.clone(), width: self.width, height: self.height }
    }
}

/// A rich embed attached to a message.
#[derive(Debug, PartialEq)]
pub enum Embed {
    Website {
        url: Option<String>,
        original_url: Option<String>,
        special: Option<RemoteContent>,
        title: Option<String>,
        description: Option<String>,
        image: Option<Image>,
        video: Option<Video>,
        site_name: Option<String>,
        icon_url: Option<String>,
        colour: Option<String>,
    },
    Image {
        url: String,
        width: usize,
        height: usize,
        size: Size,
    },
    Video {
        url: String,
        width: usize,
        height: usize,
    },
    Text {
        icon_url: Option<String>,
        url: Option<String>,
        title: Option<String>,
        description: Option<String>,
        media: Option<File>,
        colour: Option<String>,
    },
    Empty,
}

/// The mathematical value of an [`Embed`].
pub enum EmbedView {
    Website {
        url: Option<Seq<char>>,
        original_url: Option<Seq<char>>,
        special: Option<RemoteContentView>,
        title: Option<Seq<char>>,
        description: Option<Seq<char>>,
        image: Option<ImageView>,
        video: Option<VideoView>,
        site_name: Option<Seq<char>>,
        icon_url: Option<Seq<char>>,
        colour: Option<Seq<char>>,
    },
    Image {
        url: Seq<char>,
        width: usize,
        height: usize,
        size: Size,
    },
    Video {
        url: Seq<char>,
        width: usize,
        height: usize,
    },
    Text {
        icon_url: Option<Seq<char>>,
        url: Option<Seq<char>>,
        title: Option<Seq<char>>,
        description: Option<Seq<char>>,
        media: Option<FileView>,
        colour: Option<Seq<char>>,
    },
    Empty,
}

impl View for Embed {
    type V = EmbedView;

    open spec fn view(&self) -> EmbedView {
        match self {
            Embed::Website {
                url,
                original_url,
                special,
                title,
                description,
                image,
                video,
                site_name,
                icon_url,
                colour,
            } => EmbedView::Website {
                url: url.deep_view(),
                original_url: original_url.deep_view(),
                special: special.deep_view(),
                title: title.deep_view(),
                description: description.deep_view(),
                image: image.deep_view(),
                video: video.deep_view(),
                site_name: site_name.deep_view(),
                icon_url: icon_url.deep_view(),
                colour: colour.deep_view(),
            },
            Embed::Image { url, width, height, size } => EmbedView::Image {
                url: url@,
                width: *width,
                height: *height,
                size: *size,
            },
            Embed::Video { url, width, height } => EmbedView::Video {
                url: url@,
                width: *width,
                height: *height,
            },
            Embed::Text { icon_url, url, title, description, media, colour } => EmbedView::Text {
                icon_url: icon_url.deep_view(),
                url: url.deep_view(),
                title: title.deep_view(),
                description: description.deep_view(),
                media: media.deep_view(),
                colour: colour.deep_view(),
            },
            Embed::Empty => EmbedView::Empty,
        }
    }
}

impl DeepView for Embed {
    type V = EmbedView;

    open spec fn deep_view(&self) -> EmbedView {
        self.view()
    }
}

impl Clone for Embed {
    fn clone(&self) -> (res: Self)
        ensures
            res@ == self@,
    {
        match self {
            Embed::Website {
                url,
                original_url,
                special,
                title,
                description,
                image,
                video,
                site_name,
                icon_url,
                colour,
            } => Embed::Website {
                url: url.clone(),
                original_url: original_url.clone(),
                special: special.clone(),
                title: title.clone(),
                description: description.clone(),
                image: image.clone(),
                video: video.clone(),
                site_name: site_name.clone(),
                icon_url: icon_url.clone(),
                colour: colour.clone(),
            },
            Embed::Image { url, width, height, size } => Embed::Image {
                url: url.clone(),
                width: *width,
                height: *height,
                size: *size,
            },
            Embed::Video { url, width, height } => Embed::Video {
                url: url.clone(),
                width: *width,
                height: *height,
            },
            Embed::Text { icon_url, url, title, description, media, colour } => Embed::Text {
                icon_url: icon_url.clone(),
                url: url.clone(),
                title: title.clone(),
                description: description.clone(),
                media: media.clone(),
                colour: colour.clone(),
            },
            Embed::Empty => Embed::Empty,
        }
    }
}

} // verus!
