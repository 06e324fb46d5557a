use vstd::prelude::*;

verus! {

/// Names a painter.
#[derive(Copy, Clone, Debug, PartialEq, Eq, Structural)]
pub struct PainterId(pub u32);

/// Names a web view, and with it the painter that paints it.
#[derive(Copy, Clone, Debug, PartialEq, Eq, Structural)]
pub struct WebViewId {
    pub painter: PainterId,
    pub browsing_context: u64,
}

/// Names a pipeline.
#[derive(Copy, Clone, Debug, PartialEq, Eq, Structural)]
pub struct PipelineId(pub u64);

/// Names an image of a painter; the namespace is the painter's.
#[derive(Copy, Clone, Debug, PartialEq, Eq, Structural)]
pub struct ImageKey {
    pub namespace: u32,
    pub key: u32,
}

/// Names a font of a painter; the namespace is the painter's.
#[derive(Copy, Clone, Debug, PartialEq, Eq, Structural)]
pub struct FontKey {
    pub namespace: u32,
    pub key: u32,
}

/// Names an instance of a font of a painter; the namespace is the painter's.
#[derive(Copy, Clone, Debug, PartialEq, Eq, Structural)]
pub struct FontInstanceKey {
    pub namespace: u32,
    pub key: u32,
}

impl WebViewId {
    /// The painter of the web view.
    pub fn painter_id(&self) -> (r: PainterId)
        ensures
            r == self.painter,
    {
        self.painter
    }
}

impl FontKey {
    /// The painter that the font belongs to.
    pub open spec fn owner(self) -> PainterId {
        PainterId(self.namespace)
    }

    pub fn painter_id(&self) -> (r: PainterId)
        ensures
            r == self.owner(),
    {
        PainterId(self.namespace)
    }
}

impl FontInstanceKey {
    /// The painter that the font instance belongs to.
    pub open spec fn owner(self) -> PainterId {
        PainterId(self.namespace)
    }

    pub fn painter_id(&self) -> (r: PainterId)
        ensures
            r == self.owner(),
    {
        PainterId(self.namespace)
    }
}

/// The key that stands for no image of `painter`: number zero of its namespace.
pub open spec fn null_image_key(painter: PainterId) -> ImageKey {
    ImageKey { namespace: painter.0, key: 0 }
}

/// The key that stands for no font of `painter`.
pub open spec fn null_font_key(painter: PainterId) -> FontKey {
    FontKey { namespace: painter.0, key: 0 }
}

/// The key that stands for no font instance of `painter`.
pub open spec fn null_font_instance_key(painter: PainterId) -> FontInstanceKey {
    FontInstanceKey { namespace: painter.0, key: 0 }
}

/// Calls `webrender_api::ImageKey::new`, which puts the namespace and the number
/// together unchanged.
#[verifier::external_body]
pub(crate) fn new_image_key(namespace: u32, key: u32) -> (r: ImageKey)
    ensures
        r == (ImageKey { namespace, key }),
{
    let made = webrender_api::ImageKey::new(webrender_api::IdNamespace(namespace), key);
    ImageKey { namespace: (made.0).0, key: made.1 }
}

/// Calls `webrender_api::FontKey::new`, which puts the namespace and the number
/// together unchanged.
#[verifier::external_body]
pub(crate) fn new_font_key(namespace: u32, key: u32) -> (r: FontKey)
    ensures
        r == (FontKey { namespace, key }),
{
    let made = webrender_api::FontKey::new(webrender_api::IdNamespace(namespace), key);
    FontKey { namespace: (made.0).0, key: made.1 }
}

/// Calls `webrender_api::FontInstanceKey::new`, which puts the namespace and the
/// number together unchanged.
#[verifier::external_body]
pub(crate) fn new_font_instance_key(namespace: u32, key: u32) -> (r: FontInstanceKey)
    ensures
        r == (FontInstanceKey { namespace, key }),
{
    let made = webrender_api::FontInstanceKey::new(webrender_api::IdNamespace(namespace), key);
    FontInstanceKey { namespace: (made.0).0, key: made.1 }
}

} // verus!
