//! DNS records and their types.

use crate::text::{copy_optional_text, join2, same_text, uppercase, uppercase_text};
use vstd::prelude::*;
use vstd::string::*;

verus! {

/// The record types the console manages.
#[derive(Clone, Copy, Debug, PartialEq, Eq, Structural)]
pub enum DnsRecordType {
    A,
    AAAA,
    CNAME,
    MX,
    TXT,
    SRV,
}

impl DnsRecordType {
    /// The type's name as it is written in zone data.
    pub open spec fn name(self) -> Seq<char> {
        match self {
            DnsRecordType::A => "A"@,
            DnsRecordType::AAAA => "AAAA"@,
            DnsRecordType::CNAME => "CNAME"@,
            DnsRecordType::MX => "MX"@,
            DnsRecordType::TXT => "TXT"@,
            DnsRecordType::SRV => "SRV"@,
        }
    }

    /// The type that an upper-case name stands for, if any.
    pub open spec fn named(upper: Seq<char>) -> Option<DnsRecordType> {
        if upper == "A"@ {
            Some(DnsRecordType::A)
        } else if upper == "AAAA"@ {
            Some(DnsRecordType::AAAA)
        } else if upper == "CNAME"@ {
            Some(DnsRecordType::CNAME)
        } else if upper == "MX"@ {
            Some(DnsRecordType::MX)
        } else if upper == "TXT"@ {
            Some(DnsRecordType::TXT)
        } else if upper == "SRV"@ {
            Some(DnsRecordType::SRV)
        } else {
            None
        }
    }

    /// The message with which a text is rejected as a record type.
    pub open spec fn invalid_message(s: Seq<char>) -> Seq<char> {
        "Invalid DNS record type: "@ + s
    }

    /// What parsing a text gives: the type named by its upper-case form, or
    /// the rejection message for the text as written.
    pub open spec fn parsed(s: Seq<char>) -> Result<DnsRecordType, Seq<char>> {
        match Self::named(uppercase_text(s)) {
            Some(t) => Ok(t),
            None => Err(Self::invalid_message(s)),
        }
    }

    /// The type's name.
    pub fn to_string(&self) -> (text: String)
        ensures
            text@ == self.name(),
    {
        match self {
            DnsRecordType::A => String::from_str("A"),
            DnsRecordType::AAAA => String::from_str("AAAA"),
            DnsRecordType::CNAME => String::from_str("CNAME"),
            DnsRecordType::MX => String::from_str("MX"),
            DnsRecordType::TXT => String::from_str("TXT"),
            DnsRecordType::SRV => String::from_str("SRV"),
        }
    }

    /// Reads a type from its upper-case name.
    pub fn from_upper(upper: &str) -> (t: Option<DnsRecordType>)
        ensures
            t == Self::named(upper@),
    {
        if same_text(upper, "A") {
            Some(DnsRecordType::A)
        } else if same_text(upper, "AAAA") {
            Some(DnsRecordType::AAAA)
        } else if same_text(upper, "CNAME") {
            Some(DnsRecordType::CNAME)
        } else if same_text(upper, "MX") {
            Some(DnsRecordType::MX)
        } else if same_text(upper, "TXT") {
            Some(DnsRecordType::TXT)
        } else if same_text(upper, "SRV") {
            Some(DnsRecordType::SRV)
        } else {
            None
        }
    }

    /// Reads a type from its name in any letter case. Any other text is
    /// rejected with a message that quotes it.
    pub fn from_str(s: &str) -> (r: Result<DnsRecordType, String>)
        ensures
            match Self::parsed(s@) {
                Ok(t) => r == Ok::<DnsRecordType, String>(t),
                Err(message) => r is Err && r->Err_0@ == message,
            },
    {
        let upper = uppercase(s);
        match Self::from_upper(upper.as_str()) {
            Some(t) => Ok(t),
            None => Err(join2("Invalid DNS record type: ", s)),
        }
    }
}

impl View for DnsRecordType {
    type V = DnsRecordType;

    open spec fn view(&self) -> DnsRecordType {
        *self
    }
}

impl DeepView for DnsRecordType {
    type V = DnsRecordType;

    open spec fn deep_view(&self) -> DnsRecordType {
        *self
    }
}

/// One DNS record of a domain.
#[derive(Debug, PartialEq, Eq)]
pub struct DnsRecord {
    /// The provider's identifier; absent until the record exists remotely.
    pub id: Option<String>,
    pub record_type: DnsRecordType,
    pub name: String,
    pub value: String,
    pub ttl: u32,
    /// Whether the provider proxies traffic for the record.
    pub proxied: bool,
}

/// The mathematical value of a `DnsRecord`.
pub ghost struct DnsRecordView {
    pub id: Option<Seq<char>>,
    pub record_type: DnsRecordType,
    pub name: Seq<char>,
    pub value: Seq<char>,
    pub ttl: u32,
    pub proxied: bool,
}

impl View for DnsRecord {
    type V = DnsRecordView;

    open spec fn view(&self) -> DnsRecordView {
        DnsRecordView {
            id: self.id.deep_view(),
            record_type: self.record_type,
            name: self.name@,
            value: self.value@,
            ttl: self.ttl,
            proxied: self.proxied,
        }
    }
}

impl DeepView for DnsRecord {
    type V = DnsRecordView;

    open spec fn deep_view(&self) -> DnsRecordView {
        self@
    }
}

impl Clone for DnsRecord {
    fn clone(&self) -> (copy: Self)
        ensures
            copy@ == self@,
    {
        DnsRecord {
            id: copy_optional_text(&self.id),
            record_type: self.record_type,
            name: self.name.clone(),
            value: self.value.clone(),
            ttl: self.ttl,
            proxied: self.proxied,
        }
    }
}

impl DnsRecord {
    /// A record that does not exist remotely yet and is not proxied.
    pub fn new(record_type: DnsRecordType, name: String, value: String, ttl: u32) -> (record: Self)
        ensures
            record@ == (DnsRecordView {
                id: None,
                record_type,
                name: name@,
                value: value@,
                ttl,
                proxied: false,
            }),
    {
        DnsRecord { id: None, record_type, name, value, ttl, proxied: false }
    }

    /// The same record with the proxy flag set as given.
    pub fn with_proxy(self, proxied: bool) -> (record: Self)
        ensures
            record@ == (DnsRecordView { proxied, ..self@ }),
    {
        let mut record = self;
        record.proxied = proxied;
        record
    }
}

/// Copies a list of records.
pub fn copy_records(records: &Vec<DnsRecord>) -> (copy: Vec<DnsRecord>)
    ensures
        copy.deep_view() == records.deep_view(),
{
    let mut copy: Vec<DnsRecord> = Vec::new();
    let mut i: usize = 0;
    while i < records.len()
        invariant
            i <= records.len(),
            copy.len() == i,
            forall|k: int| 0 <= k < i ==> copy[k]@ == records[k]@,
        decreases records.len() - i,
    {
        copy.push(records[i].clone());
        i += 1;
    }
    assert(copy.deep_view() =~= records.deep_view());
    copy
}

} // verus!
