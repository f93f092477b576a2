//! What a deployment fixes: where the upstream service lives, which of its
//! two endpoints is asked, and how an image is declared to the client.

use vstd::prelude::*;

verus! {

/// The two kinds of upstream endpoint. A deployment talks to one of them.
#[derive(Clone, Copy, Debug, PartialEq, Eq, Structural)]
pub enum UpstreamShape {
    /// Takes `format`, `idx`, `n` and `mkt`; answers with
    /// `{"images":[{"url": ...}]}`.
    Archive,
    /// Takes no parameters; answers with
    /// `{"MediaContents":[{"ImageContent":{"Image":{"Url": ...}}}]}`.
    Model,
}

/// The settings of one relay.
#[derive(Debug, PartialEq, Eq)]
pub struct RelayConfig {
    /// Scheme and host of the upstream service, without a trailing slash.
    pub domain: String,
    /// Path of the endpoint that describes the image of the day.
    pub api_path: String,
    /// Which endpoint that is.
    pub shape: UpstreamShape,
    /// The content type declared for every image sent to a client.
    pub image_content_type: String,
    /// Host and port on which the relay listens.
    pub listen_address: String,
}

/// A configuration as verification sees it.
pub struct RelayConfigView {
    pub domain: Seq<char>,
    pub api_path: Seq<char>,
    pub shape: UpstreamShape,
    pub image_content_type: Seq<char>,
    pub listen_address: Seq<char>,
}

impl View for RelayConfig {
    type V = RelayConfigView;

    open spec fn view(&self) -> RelayConfigView {
        RelayConfigView {
            domain: self.domain@,
            api_path: self.api_path@,
            shape: self.shape,
            image_content_type: self.image_content_type@,
            listen_address: self.listen_address@,
        }
    }
}

/// The settings for the model endpoint of the public service.
pub open spec fn model_config() -> RelayConfigView {
    RelayConfigView {
        domain: "https://www.bing.com"@,
        api_path: "/hp/api/model"@,
        shape: UpstreamShape::Model,
        image_content_type: "image/webp"@,
        listen_address: "0.0.0.0:3000"@,
    }
}

/// The settings for the archive endpoint of the public service.
pub open spec fn archive_config() -> RelayConfigView {
    RelayConfigView {
        domain: "https://www.bing.com"@,
        api_path: "/HPImageArchive.aspx"@,
        shape: UpstreamShape::Archive,
        image_content_type: "image/jpeg"@,
        listen_address: "0.0.0.0:3000"@,
    }
}

impl RelayConfig {
    /// The settings for the model endpoint of the public service.
    pub fn model() -> (r: RelayConfig)
        ensures
            r@ == model_config(),
    {
        RelayConfig {
            domain: "https://www.bing.com".to_owned(),
            api_path: "/hp/api/model".to_owned(),
            shape: UpstreamShape::Model,
            image_content_type: "image/webp".to_owned(),
            listen_address: "0.0.0.0:3000".to_owned(),
        }
    }

    /// The settings for the archive endpoint of the public service.
    pub fn archive() -> (r: RelayConfig)
        ensures
            r@ == archive_config(),
    {
        RelayConfig {
            domain: "https://www.bing.com".to_owned(),
            api_path: "/HPImageArchive.aspx".to_owned(),
            shape: UpstreamShape::Archive,
            image_content_type: "image/jpeg".to_owned(),
            listen_address: "0.0.0.0:3000".to_owned(),
        }
    }
}

} // verus!
