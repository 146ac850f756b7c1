use vstd::prelude::*;

verus! {

/// One `a=` line: a key, with or without a value.
#[derive(Debug, Clone)]
pub struct Attr {
    pub key: String,
    pub value: Option<String>,
}

pub struct AttributeView {
    pub key: Seq<char>,
    pub value: Option<Seq<char>>,
}

pub open spec fn opt_view(o: Option<String>) -> Option<Seq<char>> {
    match o {
        Some(s) => Some(s@),
        None => None,
    }
}

impl View for Attr {
    type V = AttributeView;

    open spec fn view(&self) -> AttributeView {
        AttributeView { key: self.key@, value: opt_view(self.value) }
    }
}

pub open spec fn attrs_view(a: Seq<Attr>) -> Seq<AttributeView> {
    a.map_values(|x: Attr| x@)
}

pub open spec fn texts_view(a: Seq<String>) -> Seq<Seq<char>> {
    a.map_values(|x: String| x@)
}

pub open spec fn value_attr(key: Seq<char>, value: Seq<char>) -> AttributeView {
    AttributeView { key, value: Some(value) }
}

pub open spec fn property_attr(key: Seq<char>) -> AttributeView {
    AttributeView { key, value: None }
}

/// A `c=` line: network type, address type and address.
#[derive(Debug, Clone)]
pub struct ConnectionInfo {
    pub network_type: String,
    pub address_type: String,
    pub address: Option<String>,
}

pub struct ConnectionView {
    pub network_type: Seq<char>,
    pub address_type: Seq<char>,
    pub address: Option<Seq<char>>,
}

impl View for ConnectionInfo {
    type V = ConnectionView;

    open spec fn view(&self) -> ConnectionView {
        ConnectionView {
            network_type: self.network_type@,
            address_type: self.address_type@,
            address: opt_view(self.address),
        }
    }
}

pub open spec fn connection_view(c: Option<ConnectionInfo>) -> Option<ConnectionView> {
    match c {
        Some(c) => Some(c@),
        None => None,
    }
}

/// One `m=` section with its connection line and attributes.
#[derive(Debug, Clone)]
pub struct MediaDesc {
    pub media: String,
    pub port: isize,
    pub protos: Vec<String>,
    pub formats: Vec<String>,
    pub connection: Option<ConnectionInfo>,
    pub attributes: Vec<Attr>,
}

pub struct MediaView {
    pub media: Seq<char>,
    pub port: isize,
    pub protos: Seq<Seq<char>>,
    pub formats: Seq<Seq<char>>,
    pub connection: Option<ConnectionView>,
    pub attributes: Seq<AttributeView>,
}

impl View for MediaDesc {
    type V = MediaView;

    open spec fn view(&self) -> MediaView {
        MediaView {
            media: self.media@,
            port: self.port,
            protos: texts_view(self.protos@),
            formats: texts_view(self.formats@),
            connection: connection_view(self.connection),
            attributes: attrs_view(self.attributes@),
        }
    }
}

impl MediaView {
    pub open spec fn with_attr(self, a: AttributeView) -> MediaView {
        MediaView { attributes: self.attributes.push(a), ..self }
    }

    pub open spec fn with_format(self, f: Seq<char>) -> MediaView {
        MediaView { formats: self.formats.push(f), ..self }
    }
}

/// The `o=` line's session id and version.
#[derive(Debug, Clone, Copy, PartialEq, Eq, Structural)]
pub struct Origin {
    pub session_id: u64,
    pub session_version: u64,
}

/// A whole description: origin, session-level attributes and media sections.
#[derive(Debug, Clone)]
pub struct SessionDesc {
    pub origin: Origin,
    pub attributes: Vec<Attr>,
    pub media_descriptions: Vec<MediaDesc>,
}

pub struct SessionView {
    pub origin: Origin,
    pub attributes: Seq<AttributeView>,
    pub media_descriptions: Seq<MediaView>,
}

impl View for SessionDesc {
    type V = SessionView;

    open spec fn view(&self) -> SessionView {
        SessionView {
            origin: self.origin,
            attributes: attrs_view(self.attributes@),
            media_descriptions: self.media_descriptions@.map_values(|m: MediaDesc| m@),
        }
    }
}

pub fn text(s: &str) -> (r: String)
    ensures
        r@ == s@,
{
    String::from_str(s)
}

impl MediaDesc {
    /// Adds `a=key:value`.
    pub fn with_value_attribute(self, key: String, value: String) -> (r: MediaDesc)
        ensures
            r@ == self@.with_attr(value_attr(key@, value@)),
    {
        let mut m = self;
        m.attributes.push(Attr { key, value: Some(value) });
        proof {
            assert(m@.attributes =~= self@.attributes.push(value_attr(key@, value@)));
        }
        m
    }

    /// Adds `a=key`.
    pub fn with_property_attribute(self, key: String) -> (r: MediaDesc)
        ensures
            r@ == self@.with_attr(property_attr(key@)),
    {
        let mut m = self;
        m.attributes.push(Attr { key, value: None });
        proof {
            assert(m@.attributes =~= self@.attributes.push(property_attr(key@)));
        }
        m
    }

    /// Adds a format token to the `m=` line.
    pub fn with_format(self, f: String) -> (r: MediaDesc)
        ensures
            r@ == self@.with_format(f@),
    {
        let mut m = self;
        m.formats.push(f);
        proof {
            assert(m@.formats =~= self@.formats.push(f@));
        }
        m
    }
}

impl SessionDesc {
    /// Adds a session-level `a=key:value`.
    pub fn with_value_attribute(self, key: String, value: String) -> (r: SessionDesc)
        ensures
            r@.attributes == self@.attributes.push(value_attr(key@, value@)),
            r@.origin == self@.origin,
            r@.media_descriptions == self@.media_descriptions,
    {
        let mut d = self;
        d.attributes.push(Attr { key, value: Some(value) });
        proof {
            assert(d@.attributes =~= self@.attributes.push(value_attr(key@, value@)));
        }
        d
    }

    /// Adds a session-level `a=key`.
    pub fn with_property_attribute(self, key: String) -> (r: SessionDesc)
        ensures
            r@.attributes == self@.attributes.push(property_attr(key@)),
            r@.origin == self@.origin,
            r@.media_descriptions == self@.media_descriptions,
    {
        let mut d = self;
        d.attributes.push(Attr { key, value: None });
        proof {
            assert(d@.attributes =~= self@.attributes.push(property_attr(key@)));
        }
        d
    }

    /// Appends a media section.
    pub fn with_media(self, m: MediaDesc) -> (r: SessionDesc)
        ensures
            r@.media_descriptions == self@.media_descriptions.push(m@),
            r@.origin == self@.origin,
            r@.attributes == self@.attributes,
    {
        let mut d = self;
        d.media_descriptions.push(m);
        proof {
            assert(d@.media_descriptions =~= self@.media_descriptions.push(m@));
        }
        d
    }
}

} // verus!
