use vstd::prelude::*;
use vstd::string::*;

use crate::error::Error;
use crate::fetcher::{Fetcher, STATUS_OK};
use crate::locator::{Url, CDX_HOST};
use crate::text::{decimal_value, is_decimal, parse_decimal, str_eq};

verus! {

/// The fields of one decoded JSON object, as (key, value) pairs.
pub type Fields = Vec<(String, String)>;

/// What decoding a body yields: `None` unless it is a JSON array of
/// objects whose values are all strings, else each object's entries.
pub uninterp spec fn json_objects(b: Seq<u8>) -> Option<Seq<Seq<(Seq<char>, Seq<char>)>>>;

pub open spec fn fields_view(o: Fields) -> Seq<(Seq<char>, Seq<char>)> {
    o@.map_values(|kv: (String, String)| (kv.0@, kv.1@))
}

pub open spec fn objects_view(v: Vec<Fields>) -> Seq<Seq<(Seq<char>, Seq<char>)>> {
    v@.map_values(|o: Fields| fields_view(o))
}

/// Relies on `serde_json::from_slice` decoding a body as an array of
/// string-to-string maps; the outcome depends on the bytes alone.
#[verifier::external_body]
fn parse_string_objects(b: &[u8]) -> (r: Option<Vec<Fields>>)
    ensures
        match r {
            None => json_objects(b@).is_none(),
            Some(v) => json_objects(b@) == Some(objects_view(v)),
        },
{
    serde_json::from_slice::<Vec<std::collections::BTreeMap<String, String>>>(b).ok().map(
        |v| v.into_iter().map(|m| m.into_iter().collect()).collect(),
    )
}

/// The value under the first entry with key `key`, if any.
pub open spec fn lookup(fields: Seq<(Seq<char>, Seq<char>)>, key: Seq<char>) -> Option<Seq<char>>
    decreases fields.len(),
{
    if fields.len() == 0 {
        None
    } else if fields[0].0 == key {
        Some(fields[0].1)
    } else {
        lookup(fields.drop_first(), key)
    }
}

/// Finds the value stored under `key`.
pub fn find_field(fields: &Fields, key: &str) -> (r: Option<String>)
    ensures
        match r {
            Some(v) => lookup(fields_view(*fields), key@) == Some(v@),
            None => lookup(fields_view(*fields), key@).is_none(),
        },
{
    let ghost fv = fields_view(*fields);
    let n = fields.len();
    let mut i: usize = 0;
    assert(fv.subrange(0, n as int) =~= fv);
    while i < n
        invariant
            n == fields@.len(),
            fv == fields_view(*fields),
            0 <= i <= n,
            lookup(fv, key@) == lookup(fv.subrange(i as int, n as int), key@),
        decreases n - i,
    {
        assert(fv.subrange(i as int, n as int).drop_first() =~= fv.subrange(i + 1, n as int));
        if str_eq(fields[i].0.as_str(), key) {
            return Some(fields[i].1.clone());
        }
        i = i + 1;
    }
    assert(fv.subrange(n as int, n as int).len() == 0);
    None
}

/// Whether the entry under `key` is present.
pub open spec fn present(f: Seq<(Seq<char>, Seq<char>)>, key: Seq<char>) -> bool {
    lookup(f, key).is_some()
}

/// The string under `key`, for a key that is present.
pub open spec fn text_at(f: Seq<(Seq<char>, Seq<char>)>, key: Seq<char>) -> Seq<char> {
    lookup(f, key).unwrap()
}

/// Whether the entry under `key` is present and holds a number that fits.
pub open spec fn holds_number(f: Seq<(Seq<char>, Seq<char>)>, key: Seq<char>) -> bool {
    present(f, key) && is_decimal(text_at(f, key)) && decimal_value(text_at(f, key)) <= u64::MAX
}

/// The number under `key`, for a key that holds one.
pub open spec fn number_at(f: Seq<(Seq<char>, Seq<char>)>, key: Seq<char>) -> nat {
    decimal_value(text_at(f, key))
}

fn text_field(fields: &Fields, key: &str) -> (r: Result<String, Error>)
    ensures
        match r {
            Ok(v) => present(fields_view(*fields), key@) && v@ == text_at(fields_view(*fields), key@),
            Err(e) => !present(fields_view(*fields), key@) && e == Error::DecodeFailed,
        },
{
    match find_field(fields, key) {
        Some(v) => Ok(v),
        None => Err(Error::DecodeFailed),
    }
}

fn number_field(fields: &Fields, key: &str) -> (r: Result<u64, Error>)
    ensures
        match r {
            Ok(v) => holds_number(fields_view(*fields), key@) && v as nat == number_at(
                fields_view(*fields),
                key@,
            ),
            Err(e) => !holds_number(fields_view(*fields), key@) && e == Error::DecodeFailed,
        },
{
    match find_field(fields, key) {
        Some(v) => match parse_decimal(v.as_str()) {
            Some(n) => Ok(n),
            None => Err(Error::DecodeFailed),
        },
        None => Err(Error::DecodeFailed),
    }
}

/// One crawl collection of the catalog.
#[derive(Clone, Debug, PartialEq, Eq)]
pub struct CollectionInfo {
    pub id: String,
    pub name: String,
    pub timegate: String,
    pub cdx_api: String,
}

/// Whether an object has every entry of a collection descriptor.
pub open spec fn collection_complete(f: Seq<(Seq<char>, Seq<char>)>) -> bool {
    &&& present(f, "id"@)
    &&& present(f, "name"@)
    &&& present(f, "timegate"@)
    &&& present(f, "cdx_api"@)
}

/// Whether `c` holds, verbatim, the entries of object `f`.
pub open spec fn collection_from(c: CollectionInfo, f: Seq<(Seq<char>, Seq<char>)>) -> bool {
    &&& c.id@ == text_at(f, "id"@)
    &&& c.name@ == text_at(f, "name"@)
    &&& c.timegate@ == text_at(f, "timegate"@)
    &&& c.cdx_api@ == text_at(f, "cdx_api"@)
}

impl CollectionInfo {
    /// A descriptor with every field empty.
    pub fn new() -> (r: CollectionInfo)
        ensures
            r.id@.len() == 0,
            r.name@.len() == 0,
            r.timegate@.len() == 0,
            r.cdx_api@.len() == 0,
    {
        CollectionInfo {
            id: String::new(),
            name: String::new(),
            timegate: String::new(),
            cdx_api: String::new(),
        }
    }

    /// Builds a descriptor from the entries of one decoded object; a
    /// missing entry gives `DecodeFailed`.
    pub fn from_fields(fields: &Fields) -> (r: Result<CollectionInfo, Error>)
        ensures
            r is Ok <==> collection_complete(fields_view(*fields)),
            r matches Ok(c) ==> collection_from(c, fields_view(*fields)),
            r is Err ==> r == Err::<CollectionInfo, Error>(Error::DecodeFailed),
    {
        let id = text_field(fields, "id")?;
        let name = text_field(fields, "name")?;
        let timegate = text_field(fields, "timegate")?;
        let cdx_api = text_field(fields, "cdx_api")?;
        Ok(CollectionInfo { id, name, timegate, cdx_api })
    }
}

impl Default for CollectionInfo {
    fn default() -> (r: CollectionInfo)
        ensures
            r.id@.len() == 0,
            r.name@.len() == 0,
            r.timegate@.len() == 0,
            r.cdx_api@.len() == 0,
    {
        CollectionInfo::new()
    }
}

/// Whether every object of `objs` is a complete collection descriptor.
pub open spec fn catalog_complete(objs: Seq<Seq<(Seq<char>, Seq<char>)>>) -> bool {
    forall|i: int| 0 <= i < objs.len() ==> collection_complete(#[trigger] objs[i])
}

/// Whether `c` holds, in order, one descriptor for each object of `objs`.
pub open spec fn catalog_from(c: Seq<CollectionInfo>, objs: Seq<Seq<(Seq<char>, Seq<char>)>>) -> bool {
    &&& c.len() == objs.len()
    &&& forall|i: int| 0 <= i < objs.len() ==> #[trigger] collection_from(c[i], objs[i])
}

/// Whether `r` is what decoding the objects `objs` (if the body gave any)
/// into a catalog gives: the catalog when every object is complete, else
/// `DecodeFailed`.
pub open spec fn catalog_decoded(
    r: Result<CollectionsInfo, Error>,
    objs: Option<Seq<Seq<(Seq<char>, Seq<char>)>>>,
) -> bool {
    if objs is Some && catalog_complete(objs.unwrap()) {
        r matches Ok(c) && catalog_from(c.0@, objs.unwrap())
    } else {
        r == Err::<CollectionsInfo, Error>(Error::DecodeFailed)
    }
}

/// The catalog of crawl collections, in the order the service lists them.
#[derive(Debug, PartialEq, Eq)]
pub struct CollectionsInfo(pub Vec<CollectionInfo>);

impl CollectionsInfo {
    /// The path of the catalog on the CDX host.
    pub const PATH: &'static str = "collinfo.json";

    /// An empty catalog.
    pub fn new() -> (r: CollectionsInfo)
        ensures
            r.0@.len() == 0,
    {
        CollectionsInfo(Vec::new())
    }

    /// The locator of the catalog.
    pub fn url() -> (r: Url)
        ensures
            r@ == (CDX_HOST@, CollectionsInfo::PATH@),
    {
        Url::CDX { path: String::from_str(CollectionsInfo::PATH) }
    }

    /// The request that fetches the catalog, asking for JSON.
    pub fn fetcher() -> (r: Fetcher)
        ensures
            r.url@ == (CDX_HOST@, CollectionsInfo::PATH@),
            r.content_type == crate::content::ContentType::JSON,
    {
        Fetcher::json_fetcher(CollectionsInfo::url())
    }

    /// Builds the catalog from decoded objects, all or nothing.
    pub fn from_objects(objs: &Vec<Fields>) -> (r: Result<CollectionsInfo, Error>)
        ensures
            catalog_decoded(r, Some(objects_view(*objs))),
    {
        let ghost ov = objects_view(*objs);
        let mut out: Vec<CollectionInfo> = Vec::new();
        let mut i: usize = 0;
        while i < objs.len()
            invariant
                ov == objects_view(*objs),
                0 <= i <= objs@.len(),
                out@.len() == i,
                forall|j: int| 0 <= j < i ==> collection_complete(#[trigger] ov[j]),
                forall|j: int| 0 <= j < i ==> #[trigger] collection_from(out@[j], ov[j]),
            decreases objs@.len() - i,
        {
            match CollectionInfo::from_fields(&objs[i]) {
                Ok(c) => {
                    out.push(c);
                },
                Err(e) => {
                    assert(!collection_complete(ov[i as int]));
                    return Err(e);
                },
            }
            i = i + 1;
        }
        Ok(CollectionsInfo(out))
    }

    /// Decodes a JSON body into the catalog; a body that is not an array
    /// of complete descriptors gives `DecodeFailed` and no catalog.
    pub fn from_json_bytes(b: &[u8]) -> (r: Result<CollectionsInfo, Error>)
        ensures
            catalog_decoded(r, json_objects(b@)),
    {
        match parse_string_objects(b) {
            Some(objs) => CollectionsInfo::from_objects(&objs),
            None => Err(Error::DecodeFailed),
        }
    }

    /// Completes a fetch of the catalog from the transport's answer to
    /// `CollectionsInfo::fetcher()`: a status other than 200 gives
    /// `UnexpectedStatus`, else the body is decoded.
    pub fn fetch(status: u16, body: &[u8]) -> (r: Result<CollectionsInfo, Error>)
        ensures
            status != STATUS_OK ==> r == Err::<CollectionsInfo, Error>(
                Error::UnexpectedStatus(status),
            ),
            status == STATUS_OK ==> catalog_decoded(r, json_objects(body@)),
    {
        if status != STATUS_OK {
            return Err(Error::UnexpectedStatus(status));
        }
        CollectionsInfo::from_json_bytes(body)
    }

    /// The number of collections.
    pub fn len(&self) -> (r: usize)
        ensures
            r == self.0@.len(),
    {
        self.0.len()
    }
}

/// One record returned by a CDX query. The numeric entries arrive as
/// decimal strings.
#[derive(Clone, Debug, PartialEq, Eq)]
pub struct CDXItem {
    pub urlkey: String,
    pub timestamp: u64,
    pub mime: String,
    pub length: u64,
    pub status: u64,
    pub filename: String,
    pub languages: String,
    pub charset: String,
    pub url: String,
    pub mime_detected: String,
    pub offset: u64,
    pub digest: String,
}

/// Whether an object has every entry of a CDX record, the numeric ones
/// holding numbers that fit.
pub open spec fn item_complete(f: Seq<(Seq<char>, Seq<char>)>) -> bool {
    &&& present(f, "urlkey"@)
    &&& holds_number(f, "timestamp"@)
    &&& present(f, "mime"@)
    &&& holds_number(f, "length"@)
    &&& holds_number(f, "status"@)
    &&& present(f, "filename"@)
    &&& present(f, "languages"@)
    &&& present(f, "charset"@)
    &&& present(f, "url"@)
    &&& present(f, "mime_detected"@)
    &&& holds_number(f, "offset"@)
    &&& present(f, "digest"@)
}

/// Whether `c` holds the entries of object `f`: strings verbatim, numbers
/// by their decimal value.
pub open spec fn item_from(c: CDXItem, f: Seq<(Seq<char>, Seq<char>)>) -> bool {
    &&& c.urlkey@ == text_at(f, "urlkey"@)
    &&& c.timestamp as nat == number_at(f, "timestamp"@)
    &&& c.mime@ == text_at(f, "mime"@)
    &&& c.length as nat == number_at(f, "length"@)
    &&& c.status as nat == number_at(f, "status"@)
    &&& c.filename@ == text_at(f, "filename"@)
    &&& c.languages@ == text_at(f, "languages"@)
    &&& c.charset@ == text_at(f, "charset"@)
    &&& c.url@ == text_at(f, "url"@)
    &&& c.mime_detected@ == text_at(f, "mime_detected"@)
    &&& c.offset as nat == number_at(f, "offset"@)
    &&& c.digest@ == text_at(f, "digest"@)
}

impl CDXItem {
    /// A record with every string empty and every number zero.
    pub fn new() -> (r: CDXItem)
        ensures
            r.urlkey@.len() == 0 && r.mime@.len() == 0 && r.filename@.len() == 0,
            r.languages@.len() == 0 && r.charset@.len() == 0 && r.url@.len() == 0,
            r.mime_detected@.len() == 0 && r.digest@.len() == 0,
            r.timestamp == 0 && r.length == 0 && r.status == 0 && r.offset == 0,
    {
        CDXItem {
            urlkey: String::new(),
            timestamp: 0,
            mime: String::new(),
            length: 0,
            status: 0,
            filename: String::new(),
            languages: String::new(),
            charset: String::new(),
            url: String::new(),
            mime_detected: String::new(),
            offset: 0,
            digest: String::new(),
        }
    }

    /// Builds a record from the entries of one decoded object; a missing
    /// entry, or a numeric one that is not a number that fits, gives
    /// `DecodeFailed`.
    pub fn from_fields(fields: &Fields) -> (r: Result<CDXItem, Error>)
        ensures
            r is Ok <==> item_complete(fields_view(*fields)),
            r matches Ok(c) ==> item_from(c, fields_view(*fields)),
            r is Err ==> r == Err::<CDXItem, Error>(Error::DecodeFailed),
    {
        let urlkey = text_field(fields, "urlkey")?;
        let timestamp = number_field(fields, "timestamp")?;
        let mime = text_field(fields, "mime")?;
        let length = number_field(fields, "length")?;
        let status = number_field(fields, "status")?;
        let filename = text_field(fields, "filename")?;
        let languages = text_field(fields, "languages")?;
        let charset = text_field(fields, "charset")?;
        let url = text_field(fields, "url")?;
        let mime_detected = text_field(fields, "mime_detected")?;
        let offset = number_field(fields, "offset")?;
        let digest = text_field(fields, "digest")?;
        Ok(
            CDXItem {
                urlkey,
                timestamp,
                mime,
                length,
                status,
                filename,
                languages,
                charset,
                url,
                mime_detected,
                offset,
                digest,
            },
        )
    }
}

impl Default for CDXItem {
    fn default() -> (r: CDXItem)
        ensures
            r.urlkey@.len() == 0 && r.mime@.len() == 0 && r.filename@.len() == 0,
            r.languages@.len() == 0 && r.charset@.len() == 0 && r.url@.len() == 0,
            r.mime_detected@.len() == 0 && r.digest@.len() == 0,
            r.timestamp == 0 && r.length == 0 && r.status == 0 && r.offset == 0,
    {
        CDXItem::new()
    }
}

/// Whether every object of `objs` is a complete CDX record.
pub open spec fn page_complete(objs: Seq<Seq<(Seq<char>, Seq<char>)>>) -> bool {
    forall|i: int| 0 <= i < objs.len() ==> item_complete(#[trigger] objs[i])
}

/// Whether `c` holds, in the same order, one record for each object.
pub open spec fn page_from(c: Seq<CDXItem>, objs: Seq<Seq<(Seq<char>, Seq<char>)>>) -> bool {
    &&& c.len() == objs.len()
    &&& forall|i: int| 0 <= i < objs.len() ==> #[trigger] item_from(c[i], objs[i])
}

/// Whether `r` is what decoding the objects `objs` (if the body gave any)
/// into a page gives: the page when every object is complete, else
/// `DecodeFailed`.
pub open spec fn page_decoded(
    r: Result<CDXItems, Error>,
    objs: Option<Seq<Seq<(Seq<char>, Seq<char>)>>>,
) -> bool {
    if objs is Some && page_complete(objs.unwrap()) {
        r matches Ok(c) && page_from(c.0@, objs.unwrap())
    } else {
        r == Err::<CDXItems, Error>(Error::DecodeFailed)
    }
}

/// The records returned by one CDX query, in the order the service
/// returned them.
#[derive(Debug, PartialEq, Eq)]
pub struct CDXItems(pub Vec<CDXItem>);

impl CDXItems {
    /// An empty page.
    pub fn new() -> (r: CDXItems)
        ensures
            r.0@.len() == 0,
    {
        CDXItems(Vec::new())
    }

    /// Builds a page from decoded objects, all or nothing, keeping their
    /// order.
    pub fn from_objects(objs: &Vec<Fields>) -> (r: Result<CDXItems, Error>)
        ensures
            page_decoded(r, Some(objects_view(*objs))),
    {
        let ghost ov = objects_view(*objs);
        let mut out: Vec<CDXItem> = Vec::new();
        let mut i: usize = 0;
        while i < objs.len()
            invariant
                ov == objects_view(*objs),
                0 <= i <= objs@.len(),
                out@.len() == i,
                forall|j: int| 0 <= j < i ==> item_complete(#[trigger] ov[j]),
                forall|j: int| 0 <= j < i ==> #[trigger] item_from(out@[j], ov[j]),
            decreases objs@.len() - i,
        {
            match CDXItem::from_fields(&objs[i]) {
                Ok(c) => {
                    out.push(c);
                },
                Err(e) => {
                    assert(!item_complete(ov[i as int]));
                    return Err(e);
                },
            }
            i = i + 1;
        }
        Ok(CDXItems(out))
    }

    /// Decodes a JSON body into a page; a body that is not an array of
    /// complete records gives `DecodeFailed` and no page.
    pub fn from_json_bytes(b: &[u8]) -> (r: Result<CDXItems, Error>)
        ensures
            page_decoded(r, json_objects(b@)),
    {
        match parse_string_objects(b) {
            Some(objs) => CDXItems::from_objects(&objs),
            None => Err(Error::DecodeFailed),
        }
    }

    /// Completes a fetch of records from the transport's answer: a status
    /// other than 200 gives `UnexpectedStatus`, else the body is decoded.
    pub fn fetch(status: u16, body: &[u8]) -> (r: Result<CDXItems, Error>)
        ensures
            status != STATUS_OK ==> r == Err::<CDXItems, Error>(Error::UnexpectedStatus(status)),
            status == STATUS_OK ==> page_decoded(r, json_objects(body@)),
    {
        if status != STATUS_OK {
            return Err(Error::UnexpectedStatus(status));
        }
        CDXItems::from_json_bytes(body)
    }

    /// The number of records.
    pub fn len(&self) -> (r: usize)
        ensures
            r == self.0@.len(),
    {
        self.0.len()
    }
}

impl Default for CollectionsInfo {
    fn default() -> (r: CollectionsInfo)
        ensures
            r.0@.len() == 0,
    {
        CollectionsInfo::new()
    }
}

impl Default for CDXItems {
    fn default() -> (r: CDXItems)
        ensures
            r.0@.len() == 0,
    {
        CDXItems::new()
    }
}

} // verus!
