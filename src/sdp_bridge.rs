use vstd::prelude::*;
use sdp::description::common::{Address, ConnectionInformation};
use sdp::description::common::Attribute as SdpAttribute;
use sdp::description::media::{MediaName, RangedPort};
use crate::sdp_model::{
    Attr, AttributeView, ConnectionInfo, ConnectionView, MediaDesc, MediaView, attrs_view,
    connection_view, opt_view, texts_view,
};

verus! {

pub open spec fn sdp_attrs_view(v: Seq<SdpAttribute>) -> Seq<AttributeView> {
    v.map_values(|a: SdpAttribute| AttributeView { key: a.key@, value: opt_view(a.value) })
}

pub open spec fn sdp_connection_view(c: Option<ConnectionInformation>) -> Option<ConnectionView> {
    match c {
        Some(c) => Some(ConnectionView {
            network_type: c.network_type@,
            address_type: c.address_type@,
            address: match c.address {
                Some(a) => Some(a.address@),
                None => None,
            },
        }),
        None => None,
    }
}

/// An sdp media section in the library's model: everything that the model keeps.
pub open spec fn media_model(m: sdp::MediaDescription) -> MediaView {
    MediaView {
        media: m.media_name.media@,
        port: m.media_name.port.value,
        protos: texts_view(m.media_name.protos@),
        formats: texts_view(m.media_name.formats@),
        connection: sdp_connection_view(m.connection_information),
        attributes: sdp_attrs_view(m.attributes@),
    }
}

/// Whether an sdp media section holds nothing beyond what the model keeps: no title,
/// key, bandwidth, port range, or address ttl and range.
pub open spec fn media_plain(m: sdp::MediaDescription) -> bool {
    &&& m.media_title.is_none()
    &&& m.encryption_key.is_none()
    &&& m.bandwidth@.len() == 0
    &&& m.media_name.port.range.is_none()
    &&& (m.connection_information matches Some(c) ==> (c.address matches Some(a) ==> a.ttl.is_none() && a.range.is_none()))
}

pub open spec fn medias_model(v: Seq<sdp::MediaDescription>) -> Seq<MediaView> {
    v.map_values(|m: sdp::MediaDescription| media_model(m))
}

fn clone_opt(o: &Option<String>) -> (r: Option<String>)
    ensures
        opt_view(r) == opt_view(*o),
{
    match o {
        Some(s) => Some(s.clone()),
        None => None,
    }
}

fn clone_texts(v: &Vec<String>) -> (r: Vec<String>)
    ensures
        texts_view(r@) == texts_view(v@),
{
    let mut r: Vec<String> = Vec::new();
    let mut i: usize = 0;
    while i < v.len()
        invariant
            i <= v.len(),
            r@.len() == i,
            forall|j: int| 0 <= j < i ==> r@[j]@ == v@[j]@,
        decreases v.len() - i,
    {
        r.push(v[i].clone());
        i = i + 1;
    }
    proof {
        assert(texts_view(r@) =~= texts_view(v@));
    }
    r
}

/// The sdp crate's form of a list of attributes.
pub fn to_sdp_attributes(v: &Vec<Attr>) -> (r: Vec<SdpAttribute>)
    ensures
        sdp_attrs_view(r@) == attrs_view(v@),
{
    let mut r: Vec<SdpAttribute> = Vec::new();
    let mut i: usize = 0;
    while i < v.len()
        invariant
            i <= v.len(),
            r@.len() == i,
            forall|j: int| 0 <= j < i ==> r@[j].key@ == v@[j].key@ && opt_view(r@[j].value) == opt_view(v@[j].value),
        decreases v.len() - i,
    {
        r.push(SdpAttribute { key: v[i].key.clone(), value: clone_opt(&v[i].value) });
        i = i + 1;
    }
    proof {
        assert(sdp_attrs_view(r@) =~= attrs_view(v@));
    }
    r
}

/// The library's form of a list of sdp attributes.
pub fn from_sdp_attributes(v: &Vec<SdpAttribute>) -> (r: Vec<Attr>)
    ensures
        attrs_view(r@) == sdp_attrs_view(v@),
{
    let mut r: Vec<Attr> = Vec::new();
    let mut i: usize = 0;
    while i < v.len()
        invariant
            i <= v.len(),
            r@.len() == i,
            forall|j: int| 0 <= j < i ==> r@[j].key@ == v@[j].key@ && opt_view(r@[j].value) == opt_view(v@[j].value),
        decreases v.len() - i,
    {
        r.push(Attr { key: v[i].key.clone(), value: clone_opt(&v[i].value) });
        i = i + 1;
    }
    proof {
        assert(attrs_view(r@) =~= sdp_attrs_view(v@));
    }
    r
}

/// The sdp crate's form of a media section.
pub fn to_sdp_media(m: &MediaDesc) -> (r: sdp::MediaDescription)
    ensures
        media_model(r) == m@,
        media_plain(r),
{
    let connection_information = match &m.connection {
        Some(c) => Some(ConnectionInformation {
            network_type: c.network_type.clone(),
            address_type: c.address_type.clone(),
            address: match &c.address {
                Some(a) => Some(Address { address: a.clone(), ttl: None, range: None }),
                None => None,
            },
        }),
        None => None,
    };
    sdp::MediaDescription {
        media_name: MediaName {
            media: m.media.clone(),
            port: RangedPort { value: m.port, range: None },
            protos: clone_texts(&m.protos),
            formats: clone_texts(&m.formats),
        },
        media_title: None,
        connection_information,
        bandwidth: Vec::new(),
        encryption_key: None,
        attributes: to_sdp_attributes(&m.attributes),
    }
}

/// The library's form of an sdp media section.
pub fn from_sdp_media(m: &sdp::MediaDescription) -> (r: MediaDesc)
    ensures
        r@ == media_model(*m),
{
    let connection = match &m.connection_information {
        Some(c) => Some(ConnectionInfo {
            network_type: c.network_type.clone(),
            address_type: c.address_type.clone(),
            address: match &c.address {
                Some(a) => Some(a.address.clone()),
                None => None,
            },
        }),
        None => None,
    };
    let r = MediaDesc {
        media: m.media_name.media.clone(),
        port: m.media_name.port.value,
        protos: clone_texts(&m.media_name.protos),
        formats: clone_texts(&m.media_name.formats),
        connection,
        attributes: from_sdp_attributes(&m.attributes),
    };
    proof {
        assert(connection_view(r.connection) == sdp_connection_view(m.connection_information));
    }
    r
}

} // verus!
