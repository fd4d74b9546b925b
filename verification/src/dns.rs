use vstd::prelude::*;

use crate::config::Config;

verus! {

/// The record types this client synchronizes: the two address types, and
/// nothing else. The tag mapping below is the extension point for further
/// types.
#[derive(Debug, Clone, Copy, PartialEq, Eq, Structural)]
pub enum DnsType {
    A,
    AAAA,
}

/// The wire tag of a record type.
pub open spec fn dns_type_tag(t: DnsType) -> Seq<char> {
    match t {
        DnsType::A => "A"@,
        DnsType::AAAA => "AAAA"@,
    }
}

/// Total mapping from a type tag to a record type; unrecognized tags map to
/// nothing.
pub open spec fn dns_type_of_tag(s: Seq<char>) -> Option<DnsType> {
    if s == "A"@ {
        Some(DnsType::A)
    } else if s == "AAAA"@ {
        Some(DnsType::AAAA)
    } else {
        None
    }
}

/// Everything that can go wrong between reading the configuration and the
/// provider confirming the written record.
#[derive(Debug, PartialEq, Eq)]
pub enum DdnsError {
    /// A provider call answered with a transport status other than the
    /// canonical success status; carries the observed status.
    BadStatus { status: u16 },
    /// A provider envelope reported `success: false`; carries the provider's
    /// error list verbatim.
    ProviderRejected { errors: Vec<String> },
    /// No zone visible to the account bears the configured domain name.
    DomainNotFound,
    /// A create or update was acknowledged without the expected record
    /// payload, so the operation is not confirmed.
    NoRecordReturned,
    /// A record-type tag outside the supported enumeration.
    UnsupportedDnsType,
}

impl DnsType {
    /// Parse a type tag, rejecting anything but the supported enumeration.
    pub fn from_str(s: &str) -> (r: Result<DnsType, DdnsError>)
        ensures
            match dns_type_of_tag(s@) {
                Some(t) => r == Ok::<DnsType, DdnsError>(t),
                None => r == Err::<DnsType, DdnsError>(DdnsError::UnsupportedDnsType),
            },
    {
        let owned = s.to_owned();
        if owned == "A".to_owned() {
            Ok(DnsType::A)
        } else if owned == "AAAA".to_owned() {
            Ok(DnsType::AAAA)
        } else {
            Err(DdnsError::UnsupportedDnsType)
        }
    }

    /// The wire tag of this record type, as the provider spells it.
    pub fn tag(&self) -> (r: String)
        ensures
            r@ == dns_type_tag(*self),
    {
        match self {
            DnsType::A => "A".to_owned(),
            DnsType::AAAA => "AAAA".to_owned(),
        }
    }
}

/// Parsing a type's own tag gives that type back: the tag mapping is a
/// faithful closed enumeration.
pub proof fn lemma_tag_round_trip(t: DnsType)
    ensures
        dns_type_of_tag(dns_type_tag(t)) == Some(t),
{
    reveal_strlit("A");
    reveal_strlit("AAAA");
    assert("A"@.len() == 1);
    assert("AAAA"@.len() == 4);
}

/// The one transport status that lets processing of a provider response
/// continue.
pub open spec fn is_canonical_status(status: u16) -> bool {
    status == 200
}

/// Gate every provider response on its transport status: anything but the
/// canonical success status is a hard failure carrying the observed status,
/// and the response body is not to be looked at in that case.
pub fn check_status_code(status: u16) -> (r: Result<(), DdnsError>)
    ensures
        r is Ok <==> is_canonical_status(status),
        !is_canonical_status(status) ==> r == Err::<(), DdnsError>((DdnsError::BadStatus { status })),
{
    if status == 200 {
        Ok(())
    } else {
        Err(DdnsError::BadStatus { status })
    }
}

/// A provider zone, reduced to the two fields this client consumes. The
/// provider reports many more; the caller drops them on the way in, which
/// keeps the model open to upstream schema growth.
#[derive(Debug, PartialEq, Eq)]
pub struct Zone {
    /// Opaque zone identifier.
    pub id: String,
    /// The zone's apex domain name, matched against the configured domain.
    pub name: String,
}

/// A DNS record as the provider reports it, reduced to the consumed fields.
#[derive(Debug, PartialEq, Eq)]
pub struct DnsRecord {
    /// Opaque record identifier.
    pub id: String,
    /// Fully-qualified record name, matched against the configured name.
    pub name: String,
    /// The address value the record carries.
    pub content: String,
}

/// The provider's answer to the zone-listing call.
#[derive(Debug, PartialEq, Eq)]
pub struct ListZonesResponse {
    pub success: bool,
    pub errors: Vec<String>,
    pub messages: Vec<String>,
    pub result: Vec<Zone>,
}

/// The provider's answer to the record-listing call.
#[derive(Debug, PartialEq, Eq)]
pub struct ListDnsRecordsResponse {
    pub success: bool,
    pub errors: Vec<String>,
    pub messages: Vec<String>,
    pub result: Vec<DnsRecord>,
}

/// The provider's answer to a create or update call.
#[derive(Debug, PartialEq, Eq)]
pub struct CreateOrUpdateDnsRecordResponse {
    pub success: bool,
    pub errors: Vec<String>,
    pub messages: Vec<String>,
    pub result: Option<DnsRecord>,
}

/// The id of the first zone at or after position `i` whose name equals
/// `domain` exactly.
pub open spec fn zone_match_from(zones: Seq<Zone>, domain: Seq<char>, i: int) -> Option<String>
    decreases zones.len() - i,
{
    if i < 0 || i >= zones.len() {
        None
    } else if zones[i].name@ == domain {
        Some(zones[i].id)
    } else {
        zone_match_from(zones, domain, i + 1)
    }
}

/// The id of the first zone named exactly `domain`, if any is listed.
pub open spec fn zone_lookup(zones: Seq<Zone>, domain: Seq<char>) -> Option<String> {
    zone_match_from(zones, domain, 0)
}

/// The id of the first record at or after position `i` whose name equals
/// `name` exactly.
pub open spec fn record_match_from(records: Seq<DnsRecord>, name: Seq<char>, i: int) -> Option<
    String,
>
    decreases records.len() - i,
{
    if i < 0 || i >= records.len() {
        None
    } else if records[i].name@ == name {
        Some(records[i].id)
    } else {
        record_match_from(records, name, i + 1)
    }
}

/// The id of the first record named exactly `name`, if any is listed.
pub open spec fn record_lookup(records: Seq<DnsRecord>, name: Seq<char>) -> Option<String> {
    record_match_from(records, name, 0)
}

/// Linear scan of a zone list for the first entry named exactly `domain`
/// (case-sensitive, per provider semantics).
pub fn find_zone_id(zones: &Vec<Zone>, domain: &String) -> (r: Option<String>)
    ensures
        r == zone_lookup(zones@, domain@),
{
    let n = zones.len();
    let mut i: usize = 0;
    while i < n
        invariant
            n == zones@.len(),
            i <= n,
            zone_lookup(zones@, domain@) == zone_match_from(zones@, domain@, i as int),
        decreases n - i,
    {
        if zones[i].name == *domain {
            return Some(zones[i].id.clone());
        }
        i = i + 1;
    }
    None
}

/// Linear scan of a record list for the first entry named exactly `name`.
/// The provider is asked to filter server-side already; this client-side
/// exact-match re-check is required behavior, not an optimization.
pub fn find_dns_record_id(records: &Vec<DnsRecord>, name: &String) -> (r: Option<String>)
    ensures
        r == record_lookup(records@, name@),
{
    let n = records.len();
    let mut i: usize = 0;
    while i < n
        invariant
            n == records@.len(),
            i <= n,
            record_lookup(records@, name@) == record_match_from(records@, name@, i as int),
        decreases n - i,
    {
        if records[i].name == *name {
            return Some(records[i].id.clone());
        }
        i = i + 1;
    }
    None
}

/// The outcome zone resolution owes for a given provider answer: the error
/// list verbatim when the provider rejected the call, the first matching
/// zone's id when the domain is listed, and "domain not found" otherwise.
pub open spec fn resolve_zone_spec(domain: Seq<char>, resp: ListZonesResponse) -> Result<
    String,
    DdnsError,
> {
    if !resp.success {
        Err(DdnsError::ProviderRejected { errors: resp.errors })
    } else {
        match zone_lookup(resp.result@, domain) {
            Some(id) => Ok(id),
            None => Err(DdnsError::DomainNotFound),
        }
    }
}

/// Interpret the zone-listing answer: pick the zone whose name equals the
/// configured domain, or fail.
pub fn resolve_zone(domain: &String, resp: ListZonesResponse) -> (r: Result<String, DdnsError>)
    ensures
        r == resolve_zone_spec(domain@, resp),
{
    if !resp.success {
        return Err(DdnsError::ProviderRejected { errors: resp.errors });
    }
    match find_zone_id(&resp.result, domain) {
        Some(id) => Ok(id),
        None => Err(DdnsError::DomainNotFound),
    }
}

/// The outcome record resolution owes for a given provider answer: the error
/// list verbatim when the provider rejected the call, and otherwise the id of
/// the record to update, if one is named exactly like the configured name.
pub open spec fn resolve_record_spec(name: Seq<char>, resp: ListDnsRecordsResponse) -> Result<
    Option<String>,
    DdnsError,
> {
    if !resp.success {
        Err(DdnsError::ProviderRejected { errors: resp.errors })
    } else {
        Ok(record_lookup(resp.result@, name))
    }
}

/// Interpret the record-listing answer: find the existing record to update,
/// if there is one.
pub fn resolve_record(name: &String, resp: ListDnsRecordsResponse) -> (r: Result<
    Option<String>,
    DdnsError,
>)
    ensures
        r == resolve_record_spec(name@, resp),
{
    if !resp.success {
        return Err(DdnsError::ProviderRejected { errors: resp.errors });
    }
    Ok(find_dns_record_id(&resp.result, name))
}

/// The outcome a create or update answer owes: rejection carries the error
/// list verbatim, an acknowledgment without the written record is itself a
/// failure, and only a returned record confirms the operation.
pub open spec fn confirm_write_spec(resp: CreateOrUpdateDnsRecordResponse) -> Result<
    (),
    DdnsError,
> {
    if !resp.success {
        Err(DdnsError::ProviderRejected { errors: resp.errors })
    } else if resp.result is None {
        Err(DdnsError::NoRecordReturned)
    } else {
        Ok(())
    }
}

/// Interpret a create or update answer.
pub fn confirm_write(resp: CreateOrUpdateDnsRecordResponse) -> (r: Result<(), DdnsError>)
    ensures
        r == confirm_write_spec(resp),
{
    if !resp.success {
        return Err(DdnsError::ProviderRejected { errors: resp.errors });
    }
    match resp.result {
        None => Err(DdnsError::NoRecordReturned),
        Some(_) => Ok(()),
    }
}

/// The TTL written when the configuration leaves it out: the provider's
/// conventional "automatic" value.
pub open spec fn ttl_or_default(ttl: Option<u32>) -> u32 {
    match ttl {
        Some(t) => t,
        None => 1u32,
    }
}

/// The proxy flag written when the configuration leaves it out.
pub open spec fn proxied_or_default(proxied: Option<bool>) -> bool {
    match proxied {
        Some(p) => p,
        None => false,
    }
}

/// The body of a create or update call, fully determined by the
/// configuration and the resolved address.
#[derive(Debug, PartialEq, Eq)]
pub struct CreateOrUpdateDnsRecordRequest {
    pub dns_type: DnsType,
    pub name: String,
    pub content: String,
    pub ttl: u32,
    pub proxied: bool,
}

/// The one request body a given configuration and address call for.
pub open spec fn request_body_spec(
    dns_type: DnsType,
    name: String,
    content: String,
    ttl: Option<u32>,
    proxied: Option<bool>,
) -> CreateOrUpdateDnsRecordRequest {
    CreateOrUpdateDnsRecordRequest {
        dns_type,
        name,
        content,
        ttl: ttl_or_default(ttl),
        proxied: proxied_or_default(proxied),
    }
}

impl CreateOrUpdateDnsRecordRequest {
    /// Build the outgoing body: configured `ttl` and `proxied` pass through
    /// unchanged, absent ones fall back to `1` ("automatic") and `false`.
    pub fn new(
        dns_type: DnsType,
        name: String,
        content: String,
        ttl: Option<u32>,
        proxied: Option<bool>,
    ) -> (r: Self)
        ensures
            r == request_body_spec(dns_type, name, content, ttl, proxied),
    {
        Self {
            dns_type,
            name,
            content,
            ttl: match ttl {
                Some(ttl) => ttl,
                None => 1,
            },
            proxied: match proxied {
                Some(proxied) => proxied,
                None => false,
            },
        }
    }
}

/// Absent optional fields default exactly to `1` and `false`; present ones
/// pass through unchanged.
pub proof fn lemma_body_defaults()
    ensures
        ttl_or_default(None) == 1u32,
        proxied_or_default(None) == false,
        forall|t: u32| ttl_or_default(Some(t)) == t,
        forall|p: bool| proxied_or_default(Some(p)) == p,
{
}

/// Where the synchronization dialogue stands: which answer it waits for, or
/// how it ended. The three provider calls are strictly sequential; each state
/// remembers exactly what the next decision needs.
#[derive(Debug, PartialEq, Eq)]
pub enum SyncState {
    /// Waiting for the zone listing.
    ResolveZone,
    /// Waiting for the record listing of the resolved zone.
    ResolveRecord { zone_id: String },
    /// Waiting for the provider to confirm the issued create or update.
    ConfirmWrite,
    /// The record is confirmed written.
    Complete,
    /// The run failed; nothing further is to be sent.
    Failed { error: DdnsError },
}

/// What the caller is to do next: one provider call, or nothing.
#[derive(Debug, PartialEq, Eq)]
pub enum SyncAction {
    /// List all zones visible to the account.
    ListZones,
    /// List the records of the given zone, filtered by the configured type
    /// and name.
    ListDnsRecords { zone_id: String },
    /// Create the record in the given zone.
    CreateDnsRecord { zone_id: String, body: CreateOrUpdateDnsRecordRequest },
    /// Replace the given record in the given zone.
    UpdateDnsRecord { zone_id: String, record_id: String, body: CreateOrUpdateDnsRecordRequest },
    /// The run is over; inspect the state.
    Stop,
}

/// What the caller observed for the pending call: either a non-canonical
/// transport status, in which case the body was never parsed, or the parsed
/// envelope of the answer.
#[derive(Debug, PartialEq, Eq)]
pub enum SyncEvent {
    /// The transport answered with a status other than the canonical one;
    /// the response body is unread.
    StatusRejected { status: u16 },
    /// The parsed answer to the zone listing.
    ZoneList { resp: ListZonesResponse },
    /// The parsed answer to the record listing.
    DnsRecordList { resp: ListDnsRecordsResponse },
    /// The parsed answer to the create or update.
    WriteOutcome { resp: CreateOrUpdateDnsRecordResponse },
}

/// Which events may answer which state: each envelope answers exactly the
/// call its state waits for, and a transport rejection may answer any
/// pending call.
pub open spec fn step_permitted(state: SyncState, event: SyncEvent) -> bool {
    match event {
        SyncEvent::StatusRejected { .. } => state is ResolveZone || state is ResolveRecord
            || state is ConfirmWrite,
        SyncEvent::ZoneList { .. } => state is ResolveZone,
        SyncEvent::DnsRecordList { .. } => state is ResolveRecord,
        SyncEvent::WriteOutcome { .. } => state is ConfirmWrite,
    }
}

/// The whole decision logic of one synchronization step, as a function of
/// the configuration, the resolved address, the pending state and the
/// observed event.
pub open spec fn step_spec(cfg: Config, content: String, state: SyncState, event: SyncEvent) -> (
    SyncState,
    SyncAction,
) {
    match event {
        SyncEvent::StatusRejected { status } => (
            SyncState::Failed { error: DdnsError::BadStatus { status } },
            SyncAction::Stop,
        ),
        SyncEvent::ZoneList { resp } => match resolve_zone_spec(cfg.domain@, resp) {
            Ok(zone_id) => (
                SyncState::ResolveRecord { zone_id },
                SyncAction::ListDnsRecords { zone_id },
            ),
            Err(error) => (SyncState::Failed { error }, SyncAction::Stop),
        },
        SyncEvent::DnsRecordList { resp } => match resolve_record_spec(cfg.name@, resp) {
            Ok(Some(record_id)) => (
                SyncState::ConfirmWrite,
                SyncAction::UpdateDnsRecord {
                    zone_id: state->zone_id,
                    record_id,
                    body: request_body_spec(cfg.dns_type, cfg.name, content, cfg.ttl, cfg.proxied),
                },
            ),
            Ok(None) => (
                SyncState::ConfirmWrite,
                SyncAction::CreateDnsRecord {
                    zone_id: state->zone_id,
                    body: request_body_spec(cfg.dns_type, cfg.name, content, cfg.ttl, cfg.proxied),
                },
            ),
            Err(error) => (SyncState::Failed { error }, SyncAction::Stop),
        },
        SyncEvent::WriteOutcome { resp } => match confirm_write_spec(resp) {
            Ok(_) => (SyncState::Complete, SyncAction::Stop),
            Err(error) => (SyncState::Failed { error }, SyncAction::Stop),
        },
    }
}

/// Open the synchronization dialogue: the first call lists the zones.
pub fn start_sync() -> (r: (SyncState, SyncAction))
    ensures
        r == (SyncState::ResolveZone, SyncAction::ListZones),
{
    (SyncState::ResolveZone, SyncAction::ListZones)
}

/// Whether `event` is an answer the dialogue in `state` can take. Callers
/// that cannot track the pairing statically gate their [`step`] calls on
/// this.
pub fn step_allowed(state: &SyncState, event: &SyncEvent) -> (r: bool)
    ensures
        r == step_permitted(*state, *event),
{
    match event {
        SyncEvent::StatusRejected { .. } => match state {
            SyncState::ResolveZone => true,
            SyncState::ResolveRecord { .. } => true,
            SyncState::ConfirmWrite => true,
            _ => false,
        },
        SyncEvent::ZoneList { .. } => matches!(state, SyncState::ResolveZone),
        SyncEvent::DnsRecordList { .. } => matches!(state, SyncState::ResolveRecord { .. }),
        SyncEvent::WriteOutcome { .. } => matches!(state, SyncState::ConfirmWrite),
    }
}

/// Advance the dialogue by one observed answer: interpret the answer for the
/// pending call and decide the next call, exactly as [`step_spec`] lays it
/// down.
pub fn step(cfg: &Config, content: &String, state: SyncState, event: SyncEvent) -> (r: (
    SyncState,
    SyncAction,
))
    requires
        step_permitted(state, event),
    ensures
        r == step_spec(*cfg, *content, state, event),
{
    match event {
        SyncEvent::StatusRejected { status } => (
            SyncState::Failed { error: DdnsError::BadStatus { status } },
            SyncAction::Stop,
        ),
        SyncEvent::ZoneList { resp } => match resolve_zone(&cfg.domain, resp) {
            Ok(zone_id) => {
                let next = SyncState::ResolveRecord { zone_id: zone_id.clone() };
                (next, SyncAction::ListDnsRecords { zone_id })
            },
            Err(error) => (SyncState::Failed { error }, SyncAction::Stop),
        },
        SyncEvent::DnsRecordList { resp } => {
            let zone_id = match state {
                SyncState::ResolveRecord { zone_id } => zone_id,
                _ => unreached(),
            };
            match resolve_record(&cfg.name, resp) {
                Ok(found) => {
                    let body = CreateOrUpdateDnsRecordRequest::new(
                        cfg.dns_type,
                        cfg.name.clone(),
                        content.clone(),
                        cfg.ttl,
                        cfg.proxied,
                    );
                    match found {
                        Some(record_id) => (
                            SyncState::ConfirmWrite,
                            SyncAction::UpdateDnsRecord { zone_id, record_id, body },
                        ),
                        None => (
                            SyncState::ConfirmWrite,
                            SyncAction::CreateDnsRecord { zone_id, body },
                        ),
                    }
                },
                Err(error) => (SyncState::Failed { error }, SyncAction::Stop),
            }
        },
        SyncEvent::WriteOutcome { resp } => match confirm_write(resp) {
            Ok(_) => (SyncState::Complete, SyncAction::Stop),
            Err(error) => (SyncState::Failed { error }, SyncAction::Stop),
        },
    }
}

/// Some listed zone bears exactly this domain name.
pub open spec fn has_zone_named(zones: Seq<Zone>, domain: Seq<char>) -> bool {
    exists|i: int| 0 <= i < zones.len() && zones[i].name@ == domain
}

/// Some listed record bears exactly this record name.
pub open spec fn has_record_named(records: Seq<DnsRecord>, name: Seq<char>) -> bool {
    exists|i: int| 0 <= i < records.len() && records[i].name@ == name
}

proof fn lemma_zone_match_from_characterization(zones: Seq<Zone>, domain: Seq<char>, i: int)
    requires
        0 <= i <= zones.len(),
    ensures
        zone_match_from(zones, domain, i) is Some <==> exists|j: int|
            i <= j < zones.len() && zones[j].name@ == domain,
        zone_match_from(zones, domain, i) matches Some(id) ==> exists|j: int|
            i <= j < zones.len() && zones[j].name@ == domain && zones[j].id == id,
    decreases zones.len() - i,
{
    if i == zones.len() {
    } else if zones[i].name@ == domain {
        assert(i <= i < zones.len() && zones[i].name@ == domain);
    } else {
        lemma_zone_match_from_characterization(zones, domain, i + 1);
    }
}

proof fn lemma_record_match_from_characterization(records: Seq<DnsRecord>, name: Seq<char>, i: int)
    requires
        0 <= i <= records.len(),
    ensures
        record_match_from(records, name, i) is Some <==> exists|j: int|
            i <= j < records.len() && records[j].name@ == name,
        record_match_from(records, name, i) matches Some(id) ==> exists|j: int|
            i <= j < records.len() && records[j].name@ == name && records[j].id == id,
    decreases records.len() - i,
{
    if i == records.len() {
    } else if records[i].name@ == name {
        assert(i <= i < records.len() && records[i].name@ == name);
    } else {
        lemma_record_match_from_characterization(records, name, i + 1);
    }
}

/// When the provider accepted the zone listing: if some listed zone is named
/// exactly like the configured domain, the dialogue moves on to the record
/// listing of such a zone's id; if none is, it fails at once with "domain
/// not found" and issues no further call.
pub proof fn lemma_zone_resolution(cfg: Config, content: String, resp: ListZonesResponse)
    requires
        resp.success,
    ensures
        has_zone_named(resp.result@, cfg.domain@) ==> (step_spec(
            cfg,
            content,
            SyncState::ResolveZone,
            (SyncEvent::ZoneList { resp }),
        ) matches (
            SyncState::ResolveRecord { zone_id },
            SyncAction::ListDnsRecords { zone_id: queried },
        ) && queried == zone_id && exists|i: int|
            0 <= i < resp.result@.len() && resp.result@[i].name@ == cfg.domain@
                && resp.result@[i].id == zone_id),
        !has_zone_named(resp.result@, cfg.domain@) ==> step_spec(
            cfg,
            content,
            SyncState::ResolveZone,
            (SyncEvent::ZoneList { resp }),
        ) == ((SyncState::Failed { error: DdnsError::DomainNotFound }), SyncAction::Stop),
{
    lemma_zone_match_from_characterization(resp.result@, cfg.domain@, 0);
}

/// When the provider accepted the record listing: a record named exactly
/// like the configured name means the next call is an update of exactly that
/// record's id; no such record means the next call is a create; the two are
/// mutually exclusive per run.
pub proof fn lemma_update_create_exclusive(
    cfg: Config,
    content: String,
    zone_id: String,
    resp: ListDnsRecordsResponse,
)
    requires
        resp.success,
    ensures
        step_spec(
            cfg,
            content,
            (SyncState::ResolveRecord { zone_id }),
            (SyncEvent::DnsRecordList { resp }),
        ).1 is UpdateDnsRecord <==> has_record_named(resp.result@, cfg.name@),
        step_spec(
            cfg,
            content,
            (SyncState::ResolveRecord { zone_id }),
            (SyncEvent::DnsRecordList { resp }),
        ).1 is CreateDnsRecord <==> !has_record_named(resp.result@, cfg.name@),
        step_spec(
            cfg,
            content,
            (SyncState::ResolveRecord { zone_id }),
            (SyncEvent::DnsRecordList { resp }),
        ).1 matches SyncAction::UpdateDnsRecord { record_id, .. } ==> exists|i: int|
            0 <= i < resp.result@.len() && resp.result@[i].name@ == cfg.name@
                && resp.result@[i].id == record_id,
{
    lemma_record_match_from_characterization(resp.result@, cfg.name@, 0);
}

/// A non-canonical transport status on any pending call fails the run with
/// exactly that status and stops it; no envelope is interpreted, for the
/// event carries none.
pub proof fn lemma_bad_status_short_circuits(
    cfg: Config,
    content: String,
    state: SyncState,
    status: u16,
)
    ensures
        step_spec(cfg, content, state, (SyncEvent::StatusRejected { status })) == ((
            SyncState::Failed { error: (DdnsError::BadStatus { status }) },
            SyncAction::Stop,
        )),
{
}

/// The error list of the envelope an event carries, when that envelope was
/// rejected at the application level.
pub open spec fn rejected_errors(event: SyncEvent) -> Option<Vec<String>> {
    match event {
        SyncEvent::StatusRejected { .. } => None,
        SyncEvent::ZoneList { resp } => if resp.success {
            None
        } else {
            Some(resp.errors)
        },
        SyncEvent::DnsRecordList { resp } => if resp.success {
            None
        } else {
            Some(resp.errors)
        },
        SyncEvent::WriteOutcome { resp } => if resp.success {
            None
        } else {
            Some(resp.errors)
        },
    }
}

/// Whichever call it answers, an envelope with `success: false` fails the
/// run with the provider's error list verbatim and stops it, regardless of
/// the transport status that let the envelope through.
pub proof fn lemma_rejected_envelope_surfaces_errors(
    cfg: Config,
    content: String,
    state: SyncState,
    event: SyncEvent,
)
    requires
        step_permitted(state, event),
    ensures
        rejected_errors(event) matches Some(errors) ==> step_spec(cfg, content, state, event) == ((
            SyncState::Failed { error: (DdnsError::ProviderRejected { errors }) },
            SyncAction::Stop,
        )),
{
}

} // verus!

