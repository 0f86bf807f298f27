//! Cluster manifests: the list of host addresses that a CloudLab XML manifest
//! or a TOML file names.
use vstd::prelude::*;

use crate::cluster::{first_local, spec_first_local, spec_parse_ipv4, Cluster, Ipv4};
use crate::toml_doc::{
    spec_toml_array_len, spec_toml_has_key, spec_toml_item_str, spec_toml_parses, toml_as_array, toml_get,
    toml_item_str, toml_parse,
};
use crate::xml::{spec_xml_event, xml_read_event, xml_reader, xml_trim_text, XmlEvent, XmlEventView};

verus! {

/// An attribute of an XML tag: its raw key and raw value.
#[derive(Clone, Debug)]
pub struct XmlAttr {
    pub key: Vec<u8>,
    pub value: Vec<u8>,
}

/// An empty-element tag of an XML document: its raw name and its
/// attributes in order, `None` standing for one that did not parse.
#[derive(Clone, Debug)]
pub struct XmlElement {
    pub name: Vec<u8>,
    pub attrs: Vec<Option<XmlAttr>>,
}

/// An XML attribute's raw key and raw value, as bytes.
pub open spec fn spec_attr_view(a: Option<XmlAttr>) -> Option<(Seq<u8>, Seq<u8>)> {
    match a {
        Some(a) => Some((a.key@, a.value@)),
        None => None,
    }
}

/// An empty-element tag as bytes: its raw name and its attributes in
/// order, `None` standing for one that did not parse.
pub struct XmlElementView {
    pub name: Seq<u8>,
    pub attrs: Seq<Option<(Seq<u8>, Seq<u8>)>>,
}

impl View for XmlElement {
    type V = XmlElementView;

    open spec fn view(&self) -> XmlElementView {
        XmlElementView { name: self.name@, attrs: self.attrs@.map_values(|a| spec_attr_view(a)) }
    }
}

/// The views of a sequence of tags.
pub open spec fn spec_element_views(elements: Seq<XmlElement>) -> Seq<XmlElementView> {
    elements.map_values(|e: XmlElement| e@)
}

/// Why a cluster manifest was refused.
#[derive(Clone, Copy, Debug, PartialEq, Eq, Structural)]
pub enum ManifestError {
    /// The text is not well-formed XML, or not TOML.
    Syntax,
    /// The text is well-formed but does not list host addresses the way a
    /// manifest does.
    Malformed,
    /// None of the hosts is this machine.
    NotInCluster,
}

/// The empty-element tags among the events of quick-xml's reader over
/// `text` (trimming text) from the `from`-th on, read as
/// [`read_empty_elements`] reads them: up to the end of the document, the
/// reader's failing, or the event at `limit`, whichever comes first. `acc`
/// holds the tags read before; `None` where the reader fails, or where the
/// event at `limit` comes and is not the end.
pub open spec fn spec_read_elements(
    text: Seq<char>,
    from: nat,
    limit: nat,
    acc: Seq<XmlElementView>,
) -> Option<Seq<XmlElementView>>
    decreases limit - from,
{
    match spec_xml_event(text, true, from) {
        XmlEventView::Eof => Some(acc),
        XmlEventView::Error => None,
        XmlEventView::Empty(e) => if from < limit {
            spec_read_elements(text, from + 1, limit, acc.push(e))
        } else {
            None
        },
        XmlEventView::Other => if from < limit {
            spec_read_elements(text, from + 1, limit, acc)
        } else {
            None
        },
    }
}

/// The empty-element tags of an XML text in document order, as quick-xml's
/// reader hands them out, or `None` where the reader fails first (or hands
/// out more events than the text has characters without reaching the end).
pub open spec fn spec_xml_empty_elements(text: Seq<char>) -> Option<Seq<XmlElementView>> {
    spec_read_elements(text, 0, text.len(), Seq::empty())
}

/// Read the empty-element tags of an XML document in order (see
/// [`spec_xml_empty_elements`]), or [`ManifestError::Syntax`] where the
/// reader fails before the end.
///
/// The reader gives at least one character of the text to each event it
/// hands out before the end, so the loop is bounded by the length of the
/// text; should the bound be reached, the text is taken as ill-formed.
pub fn read_empty_elements(text: &str) -> (r: Result<Vec<XmlElement>, ManifestError>)
    ensures
        match spec_xml_empty_elements(text@) {
            Some(e) => r matches Ok(v) && spec_element_views(v@) == e,
            None => r == Err::<Vec<XmlElement>, ManifestError>(ManifestError::Syntax),
        },
{
    let mut reader = xml_reader(text);
    xml_trim_text(&mut reader);
    let limit: usize = text.unicode_len();
    let mut elements: Vec<XmlElement> = Vec::new();
    assert(spec_element_views(elements@) =~= Seq::<XmlElementView>::empty());
    let mut count: usize = 0;
    loop
        invariant
            count <= limit,
            limit == text@.len(),
            reader.spec_text() == text@,
            reader.spec_trimmed(),
            reader.spec_count() == count,
            spec_xml_empty_elements(text@) == spec_read_elements(
                text@,
                count as nat,
                limit as nat,
                spec_element_views(elements@),
            ),
        decreases limit - count,
    {
        match xml_read_event(&mut reader) {
            XmlEvent::Eof => return Ok(elements),
            XmlEvent::Error => return Err(ManifestError::Syntax),
            XmlEvent::Empty(e) => {
                let ghost before = elements@;
                elements.push(e);
                assert(spec_element_views(elements@) =~= spec_element_views(before).push(e@));
            },
            XmlEvent::Other => {},
        }
        if count == limit {
            return Err(ManifestError::Syntax);
        }
        count = count + 1;
    }
}

/// The name of the tags that give a host's address.
pub open spec fn spec_ip_tag() -> Seq<u8> {
    seq![105u8, 112u8]
}

/// The key of the attribute that holds a host's address.
pub open spec fn spec_address_key() -> Seq<u8> {
    seq![97u8, 100u8, 100u8, 114u8, 101u8, 115u8, 115u8]
}

/// The raw value of the first `address` attribute among `attrs`, read in
/// order; `None` where an attribute that did not parse comes first, or
/// there is none.
pub open spec fn spec_find_address(attrs: Seq<Option<(Seq<u8>, Seq<u8>)>>) -> Option<Seq<u8>>
    decreases attrs.len(),
{
    if attrs.len() == 0 {
        None
    } else {
        match attrs[0] {
            None => None,
            Some(a) => if a.0 == spec_address_key() {
                Some(a.1)
            } else {
                spec_find_address(attrs.drop_first())
            },
        }
    }
}

/// The host address that an `ip` tag gives: its `address` attribute, read
/// as a dotted-decimal IPv4 address.
pub open spec fn spec_element_address(e: XmlElementView) -> Option<Ipv4> {
    match spec_find_address(e.attrs) {
        Some(v) => spec_parse_ipv4(v),
        None => None,
    }
}

/// The host addresses that the `ip` tags among `elements` give, in order;
/// `None` where one of those tags gives none.
pub open spec fn spec_manifest_peers(elements: Seq<XmlElementView>) -> Option<Seq<Ipv4>>
    decreases elements.len(),
{
    if elements.len() == 0 {
        Some(Seq::empty())
    } else {
        let rest = spec_manifest_peers(elements.drop_last());
        let e = elements.last();
        if e.name != spec_ip_tag() {
            rest
        } else {
            match (rest, spec_element_address(e)) {
                (Some(r), Some(a)) => Some(r.push(a)),
                _ => None,
            }
        }
    }
}

fn bytes_eq(a: &Vec<u8>, b: &[u8]) -> (r: bool)
    ensures
        r == (a@ == b@),
{
    if a.len() != b.len() {
        return false;
    }
    let mut i: usize = 0;
    while i < a.len()
        invariant
            a@.len() == b@.len(),
            0 <= i <= a@.len(),
            forall|k: int| 0 <= k < i ==> a@[k] == b@[k],
        decreases a@.len() - i,
    {
        if a[i] != b[i] {
            return false;
        }
        i = i + 1;
    }
    assert(a@ =~= b@);
    true
}

/// The raw value of the first `address` attribute, as
/// [`spec_find_address`] says.
fn find_address(attrs: &Vec<Option<XmlAttr>>) -> (r: Option<&Vec<u8>>)
    ensures
        r matches Some(v) ==> spec_find_address(attrs@.map_values(|a| spec_attr_view(a))) == Some(
            v@,
        ),
        r is None ==> spec_find_address(attrs@.map_values(|a| spec_attr_view(a))) is None,
{
    let ghost views = attrs@.map_values(|a| spec_attr_view(a));
    let key: [u8; 7] = [97u8, 100u8, 100u8, 114u8, 101u8, 115u8, 115u8];
    assert(key@ == spec_address_key());
    assert(views.subrange(0, views.len() as int) =~= views);
    let mut i: usize = 0;
    while i < attrs.len()
        invariant
            0 <= i <= attrs@.len(),
            views == attrs@.map_values(|a| spec_attr_view(a)),
            key@ == spec_address_key(),
            spec_find_address(views) == spec_find_address(views.subrange(i as int, views.len() as int)),
        decreases attrs@.len() - i,
    {
        let ghost rest = views.subrange(i as int, views.len() as int);
        assert(rest.drop_first() =~= views.subrange(i + 1, views.len() as int));
        assert(rest[0] == spec_attr_view(attrs@[i as int]));
        match &attrs[i] {
            None => return None,
            Some(a) => {
                if bytes_eq(&a.key, key.as_slice()) {
                    return Some(&a.value);
                }
            },
        }
        i = i + 1;
    }
    assert(views.subrange(i as int, views.len() as int).len() == 0);
    None
}

/// The host addresses that the `ip` tags among `elements` give, in order,
/// as [`spec_manifest_peers`] says: `None` where an `ip` tag has no
/// readable `address` attribute, or one that is no IPv4 address.
pub fn manifest_peers(elements: &[XmlElement]) -> (r: Option<Vec<Ipv4>>)
    ensures
        r matches Some(v) ==> spec_manifest_peers(spec_element_views(elements@)) == Some(v@),
        r is None ==> spec_manifest_peers(spec_element_views(elements@)) is None,
{
    let tag: [u8; 2] = [105u8, 112u8];
    assert(tag@ == spec_ip_tag());
    let mut peers: Vec<Ipv4> = Vec::new();
    let mut i: usize = 0;
    while i < elements.len()
        invariant
            0 <= i <= elements@.len(),
            tag@ == spec_ip_tag(),
            spec_manifest_peers(spec_element_views(elements@).subrange(0, i as int)) == Some(peers@),
        decreases elements@.len() - i,
    {
        let e = &elements[i];
        let ghost views = spec_element_views(elements@);
        assert(views.subrange(0, i + 1).drop_last() =~= views.subrange(0, i as int));
        assert(views.subrange(0, i + 1).last() == elements@[i as int]@);
        if bytes_eq(&e.name, tag.as_slice()) {
            let addr = match find_address(&e.attrs) {
                Some(v) => Ipv4::parse(v.as_slice()),
                None => None,
            };
            match addr {
                Some(a) => peers.push(a),
                None => {
                    proof {
                        lemma_manifest_peers_none_extends(spec_element_views(elements@), i as int + 1);
                    }
                    return None;
                },
            }
        }
        i = i + 1;
    }
    assert(spec_element_views(elements@).subrange(0, elements@.len() as int) =~= spec_element_views(
        elements@,
    ));
    Some(peers)
}

/// A manifest prefix that lists no peers makes every longer prefix list
/// none either.
proof fn lemma_manifest_peers_none_extends(elements: Seq<XmlElementView>, n: int)
    requires
        0 <= n <= elements.len(),
        spec_manifest_peers(elements.subrange(0, n)) is None,
    ensures
        spec_manifest_peers(elements) is None,
    decreases elements.len() - n,
{
    if n < elements.len() {
        assert(elements.subrange(0, n + 1).drop_last() =~= elements.subrange(0, n));
        lemma_manifest_peers_none_extends(elements, n + 1);
    } else {
        assert(elements.subrange(0, n) =~= elements);
    }
}

/// What a manifest that lists `peers` (or lists none, `None`) makes of the
/// cluster, this machine having the addresses `local`: the cluster of those
/// hosts, this host being the first of them that is this machine;
/// [`ManifestError::Malformed`] where no list was read;
/// [`ManifestError::NotInCluster`] where no host is this machine.
pub open spec fn spec_cluster_from(
    peers: Option<Seq<Ipv4>>,
    local: Seq<Ipv4>,
    r: Result<Cluster, ManifestError>,
) -> bool {
    match peers {
        None => r == Err::<Cluster, ManifestError>(ManifestError::Malformed),
        Some(p) => if exists|i: int| 0 <= i < p.len() && local.contains(#[trigger] p[i]) {
            r matches Ok(c) && c.spec_peers() == p && spec_first_local(p, local, c.spec_id() as int)
        } else {
            r == Err::<Cluster, ManifestError>(ManifestError::NotInCluster)
        },
    }
}

fn cluster_of(peers: Vec<Ipv4>, local: &[Ipv4]) -> (r: Result<Cluster, ManifestError>)
    ensures
        spec_cluster_from(Some(peers@), local@, r),
{
    let ghost p = peers@;
    match first_local(&peers, local) {
        Some(i) => {
            assert(local@.contains(p[i as int]));
            let r: Result<Cluster, ManifestError> = Ok(Cluster::new(peers, local));
            assert(spec_cluster_from(Some(p), local@, r));
            r
        },
        None => {
            let r: Result<Cluster, ManifestError> = Err(ManifestError::NotInCluster);
            assert(spec_cluster_from(Some(p), local@, r));
            r
        },
    }
}

impl Cluster {
    /// The cluster that the empty-element tags of a CloudLab manifest list,
    /// this machine having the addresses `local` (see [`spec_cluster_from`]
    /// and [`spec_manifest_peers`]).
    pub fn from_manifest_elements(elements: &[XmlElement], local: &[Ipv4]) -> (r: Result<
        Cluster,
        ManifestError,
    >)
        ensures
            spec_cluster_from(spec_manifest_peers(spec_element_views(elements@)), local@, r),
    {
        match manifest_peers(elements) {
            Some(peers) => cluster_of(peers, local),
            None => Err(ManifestError::Malformed),
        }
    }

    /// The cluster that a CloudLab XML manifest lists: the hosts that its
    /// empty `<ip address="..."/>` tags give, in document order, this
    /// machine having the addresses `local` (see
    /// [`Cluster::from_manifest_elements`]); [`ManifestError::Syntax`] where
    /// the text is not well-formed XML.
    pub fn from_cloudlab_xml(text: &str, local: &[Ipv4]) -> (r: Result<Cluster, ManifestError>)
        ensures
            match spec_xml_empty_elements(text@) {
                Some(e) => spec_cluster_from(spec_manifest_peers(e), local@, r),
                None => r == Err::<Cluster, ManifestError>(ManifestError::Syntax),
            },
    {
        match read_empty_elements(text) {
            Ok(elements) => Cluster::from_manifest_elements(elements.as_slice(), local),
            Err(e) => Err(e),
        }
    }

    /// The cluster that the texts of a TOML manifest's `peers` list name
    /// (see [`spec_cluster_from`] and [`spec_parse_all`]); a `None` stands
    /// for an item that is no string.
    pub fn from_peer_texts(texts: &[Option<Vec<u8>>], local: &[Ipv4]) -> (r: Result<
        Cluster,
        ManifestError,
    >)
        ensures
            spec_cluster_from(spec_parse_all(spec_text_views(texts@)), local@, r),
    {
        match parse_all(texts) {
            Some(peers) => cluster_of(peers, local),
            None => Err(ManifestError::Malformed),
        }
    }

    /// The cluster that a TOML manifest lists: the hosts whose addresses
    /// its top-level `peers` array holds as strings, in order, this machine
    /// having the addresses `local` (see [`Cluster::from_peer_texts`]);
    /// [`ManifestError::Syntax`] where the text is no TOML,
    /// [`ManifestError::Malformed`] where it has no `peers` array.
    pub fn from_toml(text: &str, local: &[Ipv4]) -> (r: Result<Cluster, ManifestError>)
        ensures
            match spec_toml_peer_texts(text@) {
                Ok(t) => spec_cluster_from(spec_parse_all(t), local@, r),
                Err(e) => r == Err::<Cluster, ManifestError>(e),
            },
    {
        match read_toml_peer_texts(text) {
            Ok(texts) => Cluster::from_peer_texts(texts.as_slice(), local),
            Err(e) => Err(e),
        }
    }
}

/// What the top-level `peers` array of a TOML text holds: each item's text
/// where it is a string, `None` where it is not; [`ManifestError::Syntax`]
/// where the text is no TOML, [`ManifestError::Malformed`] where it has no
/// `peers` key or the value under it is no array.
pub open spec fn spec_toml_peer_texts(text: Seq<char>) -> Result<Seq<Option<Seq<u8>>>, ManifestError> {
    if !spec_toml_parses(text) {
        Err(ManifestError::Syntax)
    } else if !spec_toml_has_key(text, "peers"@) {
        Err(ManifestError::Malformed)
    } else {
        match spec_toml_array_len(text, "peers"@) {
            None => Err(ManifestError::Malformed),
            Some(n) => Ok(Seq::new(n, |i: int| spec_toml_item_str(text, "peers"@, i as nat))),
        }
    }
}

/// Read the items of the top-level `peers` array of a TOML document, as
/// their text where they are strings (see [`spec_toml_peer_texts`]):
/// [`ManifestError::Syntax`] where the text is no TOML,
/// [`ManifestError::Malformed`] where it has no `peers` array.
pub fn read_toml_peer_texts(text: &str) -> (r: Result<Vec<Option<Vec<u8>>>, ManifestError>)
    ensures
        match spec_toml_peer_texts(text@) {
            Ok(t) => r matches Ok(v) && spec_text_views(v@) == t,
            Err(e) => r == Err::<Vec<Option<Vec<u8>>>, ManifestError>(e),
        },
{
    let doc = match toml_parse(text) {
        Ok(d) => d,
        Err(_) => return Err(ManifestError::Syntax),
    };
    let peers = match toml_get(&doc, "peers") {
        Some(v) => v,
        None => return Err(ManifestError::Malformed),
    };
    let items = match toml_as_array(&peers) {
        Some(a) => a,
        None => return Err(ManifestError::Malformed),
    };
    let ghost expected = Seq::new(
        items.spec_len(),
        |i: int| spec_toml_item_str(text@, "peers"@, i as nat),
    );
    let n = items.len();
    let mut texts: Vec<Option<Vec<u8>>> = Vec::new();
    let mut i: usize = 0;
    while i < n
        invariant
            0 <= i <= n,
            n == items.spec_len(),
            items.spec_text() == text@,
            items.spec_key() == "peers"@,
            expected.len() == n,
            spec_text_views(texts@) == expected.subrange(0, i as int),
            forall|k: int| 0 <= k < n ==> expected[k] == spec_toml_item_str(text@, "peers"@, k as nat),
        decreases n - i,
    {
        let t = toml_item_str(&items, i);
        let ghost before = texts@;
        texts.push(t);
        assert(spec_text_views(texts@) =~= spec_text_views(before).push(spec_text_view(t)));
        assert(spec_text_views(texts@) =~= expected.subrange(0, i + 1));
        i = i + 1;
    }
    assert(spec_text_views(texts@) =~= expected);
    Ok(texts)
}

/// The bytes of a text, where there is one.
pub open spec fn spec_text_view(t: Option<Vec<u8>>) -> Option<Seq<u8>> {
    match t {
        Some(v) => Some(v@),
        None => None,
    }
}

/// The bytes of each text, where there is one.
pub open spec fn spec_text_views(texts: Seq<Option<Vec<u8>>>) -> Seq<Option<Seq<u8>>> {
    texts.map_values(|t: Option<Vec<u8>>| spec_text_view(t))
}

/// The addresses that `texts` write in dotted-decimal notation, in order;
/// `None` where one is missing or writes no address.
pub open spec fn spec_parse_all(texts: Seq<Option<Seq<u8>>>) -> Option<Seq<Ipv4>>
    decreases texts.len(),
{
    if texts.len() == 0 {
        Some(Seq::empty())
    } else {
        match (spec_parse_all(texts.drop_last()), texts.last()) {
            (Some(r), Some(t)) => match spec_parse_ipv4(t) {
                Some(a) => Some(r.push(a)),
                None => None,
            },
            _ => None,
        }
    }
}

proof fn lemma_parse_all_none_extends(texts: Seq<Option<Seq<u8>>>, n: int)
    requires
        0 <= n <= texts.len(),
        spec_parse_all(texts.subrange(0, n)) is None,
    ensures
        spec_parse_all(texts) is None,
    decreases texts.len() - n,
{
    if n < texts.len() {
        assert(texts.subrange(0, n + 1).drop_last() =~= texts.subrange(0, n));
        lemma_parse_all_none_extends(texts, n + 1);
    } else {
        assert(texts.subrange(0, n) =~= texts);
    }
}

/// Parse every text as an address, as [`spec_parse_all`] says.
pub fn parse_all(texts: &[Option<Vec<u8>>]) -> (r: Option<Vec<Ipv4>>)
    ensures
        r matches Some(v) ==> spec_parse_all(spec_text_views(texts@)) == Some(v@),
        r is None ==> spec_parse_all(spec_text_views(texts@)) is None,
{
    let mut out: Vec<Ipv4> = Vec::new();
    let mut i: usize = 0;
    while i < texts.len()
        invariant
            0 <= i <= texts@.len(),
            spec_parse_all(spec_text_views(texts@).subrange(0, i as int)) == Some(out@),
        decreases texts@.len() - i,
    {
        let ghost views = spec_text_views(texts@);
        assert(views.subrange(0, i + 1).drop_last() =~= views.subrange(0, i as int));
        assert(views.subrange(0, i + 1).last() == spec_text_view(texts@[i as int]));
        let a = match &texts[i] {
            Some(t) => Ipv4::parse(t.as_slice()),
            None => None,
        };
        match a {
            Some(a) => out.push(a),
            None => {
                proof {
                    lemma_parse_all_none_extends(spec_text_views(texts@), i as int + 1);
                }
                return None;
            },
        }
        i = i + 1;
    }
    assert(spec_text_views(texts@).subrange(0, texts@.len() as int) =~= spec_text_views(texts@));
    Some(out)
}

} // verus!
