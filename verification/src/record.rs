//! The provider's data shapes: one DNS record, its provenance flags, and the
//! envelope in which a zone's records are listed.
//!
//! Every type has a view that replaces strings and vectors by sequences; the
//! contracts of the crate are stated over those views.

use vstd::prelude::*;

verus! {

/// `serde_json::Value`, declared as an opaque type: a JSON value (a tag, a
/// diagnostic) that the library carries from the listing to the update
/// unchanged and never looks inside. Nothing is claimed of what one holds.
#[verifier::external_type_specification]
#[verifier::external_body]
pub struct ExJsonValue(serde_json::Value);

/// `<serde_json::Value as Clone>::clone`: the copy is the same JSON value as
/// the one it was made from. Not proved here; the crate derives the impl, which
/// clones variant by variant and field by field.
pub assume_specification[ <serde_json::Value as Clone>::clone ](
    value: &serde_json::Value,
) -> (copy: serde_json::Value)
    ensures
        copy == *value,
;

/// Provenance and management flags attached to a record.
#[derive(Debug, PartialEq, Default)]
pub struct Meta {
    pub auto_added: bool,
    pub managed_by_apps: bool,
    pub managed_by_argo_tunnel: bool,
    pub source: String,
    pub email_routing: Option<bool>,
    pub read_only: Option<bool>,
}

/// What a [`Meta`] holds, as mathematical values.
pub ghost struct MetaView {
    pub auto_added: bool,
    pub managed_by_apps: bool,
    pub managed_by_argo_tunnel: bool,
    pub source: Seq<char>,
    pub email_routing: Option<bool>,
    pub read_only: Option<bool>,
}

impl View for Meta {
    type V = MetaView;

    open spec fn view(&self) -> MetaView {
        MetaView {
            auto_added: self.auto_added,
            managed_by_apps: self.managed_by_apps,
            managed_by_argo_tunnel: self.managed_by_argo_tunnel,
            source: self.source@,
            email_routing: self.email_routing,
            read_only: self.read_only,
        }
    }
}

impl Clone for Meta {
    fn clone(&self) -> (copy: Self)
        ensures
            copy@ == self@,
    {
        Meta {
            auto_added: self.auto_added,
            managed_by_apps: self.managed_by_apps,
            managed_by_argo_tunnel: self.managed_by_argo_tunnel,
            source: self.source.clone(),
            email_routing: self.email_routing,
            read_only: self.read_only,
        }
    }
}

/// Pagination data of a listing. All of it is plain numbers, so a value is its
/// own mathematical model.
#[derive(Debug, PartialEq, Default)]
pub struct ResultInfo {
    pub page: i64,
    pub per_page: i64,
    pub count: i64,
    pub total_count: i64,
    pub total_pages: i64,
}

impl Clone for ResultInfo {
    fn clone(&self) -> (copy: Self)
        ensures
            copy == *self,
    {
        ResultInfo {
            page: self.page,
            per_page: self.per_page,
            count: self.count,
            total_count: self.total_count,
            total_pages: self.total_pages,
        }
    }
}

/// One DNS resource record as the provider knows it.
///
/// `type_field` is the record type ("A", "CNAME", ...) and `ip_addr` is the
/// record's content: for an "A" record, the address it points at. The library
/// only ever replaces `ip_addr`; every other field leaves as it came.
#[derive(Debug, PartialEq, Default)]
pub struct Record {
    pub id: String,
    pub zone_id: String,
    pub zone_name: String,
    pub name: String,
    pub type_field: String,
    pub ip_addr: String,
    pub proxiable: bool,
    pub proxied: bool,
    pub ttl: i64,
    pub locked: bool,
    pub meta: Meta,
    pub comment: Option<String>,
    pub tags: Vec<serde_json::Value>,
    pub created_on: String,
    pub modified_on: String,
    pub priority: Option<i64>,
}

/// What a [`Record`] holds, as mathematical values.
pub ghost struct RecordView {
    pub id: Seq<char>,
    pub zone_id: Seq<char>,
    pub zone_name: Seq<char>,
    pub name: Seq<char>,
    pub type_field: Seq<char>,
    pub ip_addr: Seq<char>,
    pub proxiable: bool,
    pub proxied: bool,
    pub ttl: i64,
    pub locked: bool,
    pub meta: MetaView,
    pub comment: Option<Seq<char>>,
    pub tags: Seq<serde_json::Value>,
    pub created_on: Seq<char>,
    pub modified_on: Seq<char>,
    pub priority: Option<i64>,
}

impl RecordView {
    /// This record with its content replaced by `ip` and nothing else changed.
    pub open spec fn with_content(self, ip: Seq<char>) -> RecordView {
        RecordView { ip_addr: ip, ..self }
    }
}

/// The view of an optional string.
pub open spec fn text_view(text: Option<String>) -> Option<Seq<char>> {
    match text {
        Some(s) => Some(s@),
        None => None,
    }
}

impl View for Record {
    type V = RecordView;

    open spec fn view(&self) -> RecordView {
        RecordView {
            id: self.id@,
            zone_id: self.zone_id@,
            zone_name: self.zone_name@,
            name: self.name@,
            type_field: self.type_field@,
            ip_addr: self.ip_addr@,
            proxiable: self.proxiable,
            proxied: self.proxied,
            ttl: self.ttl,
            locked: self.locked,
            meta: self.meta@,
            comment: text_view(self.comment),
            tags: self.tags@,
            created_on: self.created_on@,
            modified_on: self.modified_on@,
            priority: self.priority,
        }
    }
}

impl Record {
    /// A full copy of this record whose content is `current_ip`.
    pub fn with_content(&self, current_ip: &str) -> (updated: Record)
        ensures
            updated@ == self@.with_content(current_ip@),
    {
        let tags = self.tags.clone();
        assert(tags@ =~= self.tags@);
        Record {
            id: self.id.clone(),
            zone_id: self.zone_id.clone(),
            zone_name: self.zone_name.clone(),
            name: self.name.clone(),
            type_field: self.type_field.clone(),
            ip_addr: current_ip.to_owned(),
            proxiable: self.proxiable,
            proxied: self.proxied,
            ttl: self.ttl,
            locked: self.locked,
            meta: self.meta.clone(),
            comment: self.comment.clone(),
            tags,
            created_on: self.created_on.clone(),
            modified_on: self.modified_on.clone(),
            priority: self.priority,
        }
    }
}

impl Clone for Record {
    fn clone(&self) -> (copy: Self)
        ensures
            copy@ == self@,
    {
        self.with_content(self.ip_addr.as_str())
    }
}

/// The views of a sequence of records, in the same order.
pub open spec fn record_views(records: Seq<Record>) -> Seq<RecordView> {
    records.map_values(|r: Record| r@)
}

/// The envelope of a "list records" reply. `records` keeps the order in which
/// the provider returned them.
#[derive(Debug, PartialEq, Default)]
pub struct Response {
    pub records: Vec<Record>,
    pub success: bool,
    pub errors: Vec<serde_json::Value>,
    pub messages: Vec<serde_json::Value>,
    pub result_info: ResultInfo,
}

/// What a [`Response`] holds, as mathematical values.
pub ghost struct ResponseView {
    pub records: Seq<RecordView>,
    pub success: bool,
    pub errors: Seq<serde_json::Value>,
    pub messages: Seq<serde_json::Value>,
    pub result_info: ResultInfo,
}

impl View for Response {
    type V = ResponseView;

    open spec fn view(&self) -> ResponseView {
        ResponseView {
            records: record_views(self.records@),
            success: self.success,
            errors: self.errors@,
            messages: self.messages@,
            result_info: self.result_info,
        }
    }
}

impl Clone for Response {
    fn clone(&self) -> (copy: Self)
        ensures
            copy@ == self@,
    {
        let records = self.records.clone();
        let errors = self.errors.clone();
        let messages = self.messages.clone();
        assert(record_views(records@) =~= record_views(self.records@));
        assert(errors@ =~= self.errors@);
        assert(messages@ =~= self.messages@);
        Response {
            records,
            success: self.success,
            errors,
            messages,
            result_info: self.result_info.clone(),
        }
    }
}

} // verus!
