use crate::error::Error;
use crate::json::{json_quote, json_string, string_views, JsonValue, Member};
use vstd::prelude::*;
use vstd::string::*;

verus! {

/// What a `DirectoryMetadata` holds.
pub struct DirectoryMetadataView {
    pub terms_of_service: Option<Seq<char>>,
    pub website: Option<Seq<char>>,
    pub caa_identities: Option<Seq<Seq<char>>>,
    pub external_account_required: Option<bool>,
}

/// What a server says of itself in its directory.
#[derive(Debug, Clone)]
pub struct DirectoryMetadata {
    pub terms_of_service: Option<String>,
    pub website: Option<String>,
    pub caa_identities: Option<Vec<String>>,
    pub external_account_required: Option<bool>,
}

/// The text of a string that may be missing.
pub open spec fn optional_view(s: Option<String>) -> Option<Seq<char>> {
    match s {
        Some(s) => Some(s@),
        None => None,
    }
}

/// What a member that may be left out gives where it is well formed.
pub open spec fn member_value<T>(m: Member<T>) -> Option<T> {
    match m {
        Member::Present(v) => Some(v),
        _ => None,
    }
}

impl View for DirectoryMetadata {
    type V = DirectoryMetadataView;

    open spec fn view(&self) -> DirectoryMetadataView {
        DirectoryMetadataView {
            terms_of_service: optional_view(self.terms_of_service),
            website: optional_view(self.website),
            caa_identities: match self.caa_identities {
                Some(list) => Some(string_views(list@)),
                None => None,
            },
            external_account_required: self.external_account_required,
        }
    }
}

impl DirectoryMetadataView {
    /// The metadata that a JSON object denotes. Each of the members
    /// `termsOfService`, `website`, `caaIdentities` and
    /// `externalAccountRequired` may be left out; one that is there must
    /// have its type.
    pub open spec fn from_json(doc: JsonValue) -> Option<DirectoryMetadataView> {
        let terms = doc.spec_optional_text("termsOfService"@);
        let website = doc.spec_optional_text("website"@);
        let caa = doc.spec_optional_texts("caaIdentities"@);
        let external = doc.spec_optional_bool("externalAccountRequired"@);
        if !doc.spec_is_object() || terms is Malformed || website is Malformed || caa is Malformed
            || external is Malformed {
            None
        } else {
            Some(
                DirectoryMetadataView {
                    terms_of_service: member_value(terms),
                    website: member_value(website),
                    caa_identities: member_value(caa),
                    external_account_required: member_value(external),
                },
            )
        }
    }
}

/// A copy of a string that may be missing.
pub fn copy_optional(s: &Option<String>) -> (r: Option<String>)
    ensures
        optional_view(r) == optional_view(*s),
{
    match s {
        Some(s) => Some(s.clone()),
        None => None,
    }
}

/// A copy of a row of strings.
pub fn copy_strings(list: &Vec<String>) -> (r: Vec<String>)
    ensures
        string_views(r@) == string_views(list@),
{
    let mut out: Vec<String> = Vec::new();
    let mut i: usize = 0;
    while i < list.len()
        invariant
            i <= list.len(),
            out@.len() == i,
            forall|j: int| 0 <= j < i ==> out@[j]@ == list@[j]@,
        decreases list.len() - i,
    {
        out.push(list[i].clone());
        i += 1;
    }
    assert(string_views(out@) =~= string_views(list@));
    out
}

impl DirectoryMetadata {
    /// A copy that holds the same.
    pub fn duplicate(&self) -> (r: DirectoryMetadata)
        ensures
            r@ == self@,
    {
        DirectoryMetadata {
            terms_of_service: copy_optional(&self.terms_of_service),
            website: copy_optional(&self.website),
            caa_identities: match &self.caa_identities {
                Some(list) => Some(copy_strings(list)),
                None => None,
            },
            external_account_required: self.external_account_required,
        }
    }

    pub fn from_json(doc: &JsonValue) -> (r: Option<DirectoryMetadata>)
        ensures
            match r {
                Some(meta) => DirectoryMetadataView::from_json(*doc) == Some(meta@),
                None => DirectoryMetadataView::from_json(*doc).is_none(),
            },
    {
        if !doc.is_object() {
            return None;
        }
        let terms_of_service = match doc.optional_text("termsOfService") {
            Member::Present(s) => Some(s),
            Member::Absent => None,
            Member::Malformed => {
                return None;
            },
        };
        let website = match doc.optional_text("website") {
            Member::Present(s) => Some(s),
            Member::Absent => None,
            Member::Malformed => {
                return None;
            },
        };
        let caa_identities = match doc.optional_texts("caaIdentities") {
            Member::Present(list) => Some(list),
            Member::Absent => None,
            Member::Malformed => {
                return None;
            },
        };
        let external_account_required = match doc.optional_bool("externalAccountRequired") {
            Member::Present(b) => Some(b),
            Member::Absent => None,
            Member::Malformed => {
                return None;
            },
        };
        Some(DirectoryMetadata { terms_of_service, website, caa_identities, external_account_required })
    }
}

/// What a `Directory` holds.
pub struct DirectoryView {
    pub new_nonce: Seq<char>,
    pub new_account: Seq<char>,
    pub new_order: Seq<char>,
    pub new_authz: Option<Seq<char>>,
    pub revoke_cert: Seq<char>,
    pub key_change: Seq<char>,
    pub meta: Option<DirectoryMetadataView>,
}

/// The directory of an ACME server: where each of its services is found.
#[derive(Debug, Clone)]
pub struct Directory {
    pub new_nonce: String,
    pub new_account: String,
    pub new_order: String,
    pub new_authz: Option<String>,
    pub revoke_cert: String,
    pub key_change: String,
    pub meta: Option<DirectoryMetadata>,
}

impl View for Directory {
    type V = DirectoryView;

    open spec fn view(&self) -> DirectoryView {
        DirectoryView {
            new_nonce: self.new_nonce@,
            new_account: self.new_account@,
            new_order: self.new_order@,
            new_authz: optional_view(self.new_authz),
            revoke_cert: self.revoke_cert@,
            key_change: self.key_change@,
            meta: match self.meta {
                Some(meta) => Some(meta@),
                None => None,
            },
        }
    }
}

impl DirectoryView {
    /// The metadata of a directory document: none where the member `meta`
    /// is left out, the outer `None` where it is there and malformed.
    pub open spec fn meta_from_json(doc: JsonValue) -> Option<Option<DirectoryMetadataView>> {
        match doc.spec_member("meta"@) {
            None => Some(None),
            Some(JsonValue::Null) => Some(None),
            Some(meta) => match DirectoryMetadataView::from_json(meta) {
                Some(meta) => Some(Some(meta)),
                None => None,
            },
        }
    }

    /// The directory that a JSON object denotes. The members `newNonce`,
    /// `newAccount`, `newOrder`, `revokeCert` and `keyChange` must be there
    /// as strings; `newAuthz` and `meta` may be left out.
    pub open spec fn from_json(doc: JsonValue) -> Option<DirectoryView> {
        match (
            doc.spec_required_text("newNonce"@),
            doc.spec_required_text("newAccount"@),
            doc.spec_required_text("newOrder"@),
            doc.spec_required_text("revokeCert"@),
            doc.spec_required_text("keyChange"@),
            Self::meta_from_json(doc),
        ) {
            (
                Some(new_nonce),
                Some(new_account),
                Some(new_order),
                Some(revoke_cert),
                Some(key_change),
                Some(meta),
            ) => {
                let new_authz = doc.spec_optional_text("newAuthz"@);
                if new_authz is Malformed {
                    None
                } else {
                    Some(
                        DirectoryView {
                            new_nonce,
                            new_account,
                            new_order,
                            new_authz: member_value(new_authz),
                            revoke_cert,
                            key_change,
                            meta,
                        },
                    )
                }
            },
            _ => None,
        }
    }
}

impl Directory {
    /// A copy that holds the same.
    pub fn duplicate(&self) -> (r: Directory)
        ensures
            r@ == self@,
    {
        Directory {
            new_nonce: self.new_nonce.clone(),
            new_account: self.new_account.clone(),
            new_order: self.new_order.clone(),
            new_authz: copy_optional(&self.new_authz),
            revoke_cert: self.revoke_cert.clone(),
            key_change: self.key_change.clone(),
            meta: match &self.meta {
                Some(meta) => Some(meta.duplicate()),
                None => None,
            },
        }
    }

    pub fn from_json(doc: &JsonValue) -> (r: Option<Directory>)
        ensures
            match r {
                Some(dir) => DirectoryView::from_json(*doc) == Some(dir@),
                None => DirectoryView::from_json(*doc).is_none(),
            },
    {
        let new_nonce = doc.required_text("newNonce")?;
        let new_account = doc.required_text("newAccount")?;
        let new_order = doc.required_text("newOrder")?;
        let revoke_cert = doc.required_text("revokeCert")?;
        let key_change = doc.required_text("keyChange")?;
        let meta = match doc.member("meta") {
            None => None,
            Some(JsonValue::Null) => None,
            Some(meta) => match DirectoryMetadata::from_json(meta) {
                Some(meta) => Some(meta),
                None => {
                    return None;
                },
            },
        };
        let new_authz = match doc.optional_text("newAuthz") {
            Member::Present(s) => Some(s),
            Member::Absent => None,
            Member::Malformed => {
                return None;
            },
        };
        Some(Directory { new_nonce, new_account, new_order, new_authz, revoke_cert, key_change, meta })
    }
}

/// What an `ApiAccount` holds.
pub struct ApiAccountView {
    pub status: Option<Seq<char>>,
    pub contact: Seq<Seq<char>>,
    pub terms_of_service_agreed: Option<bool>,
    pub orders: Option<Seq<char>>,
}

/// An account as the server describes it.
#[derive(Debug, Clone)]
pub struct ApiAccount {
    pub status: Option<String>,
    pub contact: Vec<String>,
    pub terms_of_service_agreed: Option<bool>,
    pub orders: Option<String>,
}

impl View for ApiAccount {
    type V = ApiAccountView;

    open spec fn view(&self) -> ApiAccountView {
        ApiAccountView {
            status: optional_view(self.status),
            contact: string_views(self.contact@),
            terms_of_service_agreed: self.terms_of_service_agreed,
            orders: optional_view(self.orders),
        }
    }
}

impl ApiAccountView {
    /// The account that a JSON object denotes. Each of the members
    /// `status`, `contact`, `termsOfServiceAgreed` and `orders` may be left
    /// out; one that is there must have its type. An account without
    /// `contact` has no contacts.
    pub open spec fn from_json(doc: JsonValue) -> Option<ApiAccountView> {
        let status = doc.spec_optional_text("status"@);
        let contact = doc.spec_optional_texts("contact"@);
        let agreed = doc.spec_optional_bool("termsOfServiceAgreed"@);
        let orders = doc.spec_optional_text("orders"@);
        if !doc.spec_is_object() || status is Malformed || contact is Malformed || agreed is Malformed
            || orders is Malformed {
            None
        } else {
            Some(
                ApiAccountView {
                    status: member_value(status),
                    contact: match contact {
                        Member::Present(list) => list,
                        _ => Seq::empty(),
                    },
                    terms_of_service_agreed: member_value(agreed),
                    orders: member_value(orders),
                },
            )
        }
    }
}

/// The contacts of a new account as the items of a JSON array: each a JSON
/// string, a comma between two of them.
pub open spec fn contact_items(contact: Seq<Seq<char>>) -> Seq<char>
    decreases contact.len(),
{
    if contact.len() == 0 {
        Seq::empty()
    } else {
        contact_items(contact.drop_last()) + (if contact.len() > 1 {
            ","@
        } else {
            Seq::empty()
        }) + json_string(contact.last())
    }
}

/// The body of the request that makes an account or finds it again: the
/// contacts, and the agreement to the terms of service.
pub open spec fn new_account_payload(contact: Seq<Seq<char>>) -> Seq<char> {
    "{\"contact\":["@ + contact_items(contact) + "],\"termsOfServiceAgreed\":true}"@
}

impl ApiAccount {
    pub fn from_json(doc: &JsonValue) -> (r: Option<ApiAccount>)
        ensures
            match r {
                Some(account) => ApiAccountView::from_json(*doc) == Some(account@),
                None => ApiAccountView::from_json(*doc).is_none(),
            },
    {
        if !doc.is_object() {
            return None;
        }
        let status = match doc.optional_text("status") {
            Member::Present(s) => Some(s),
            Member::Absent => None,
            Member::Malformed => {
                return None;
            },
        };
        let contact = match doc.optional_texts("contact") {
            Member::Present(list) => list,
            Member::Absent => {
                let none: Vec<String> = Vec::new();
                assert(string_views(none@) =~= Seq::<Seq<char>>::empty());
                none
            },
            Member::Malformed => {
                return None;
            },
        };
        let terms_of_service_agreed = match doc.optional_bool("termsOfServiceAgreed") {
            Member::Present(b) => Some(b),
            Member::Absent => None,
            Member::Malformed => {
                return None;
            },
        };
        let orders = match doc.optional_text("orders") {
            Member::Present(s) => Some(s),
            Member::Absent => None,
            Member::Malformed => {
                return None;
            },
        };
        Some(ApiAccount { status, contact, terms_of_service_agreed, orders })
    }

    /// Writes the body of the request that makes an account with these
    /// contacts or finds it again.
    pub fn new_account_payload(contact: &Vec<String>) -> (r: Result<String, Error>)
        ensures
            r matches Ok(text) && text@ == new_account_payload(string_views(contact@)),
    {
        let mut out = String::from_str("{\"contact\":[");
        let ghost views = string_views(contact@);
        let mut i: usize = 0;
        while i < contact.len()
            invariant
                i <= contact.len(),
                views == string_views(contact@),
                out@ == "{\"contact\":["@ + contact_items(views.take(i as int)),
            decreases contact.len() - i,
        {
            let quoted = match json_quote(contact[i].as_str()) {
                Ok(quoted) => quoted,
                Err(message) => {
                    return Err(Error::Json(message));
                },
            };
            if i > 0 {
                out.append(",");
            }
            out.append(quoted.as_str());
            proof {
                let next = views.take(i as int + 1);
                assert(next.drop_last() =~= views.take(i as int));
                assert(next.last() == contact@[i as int]@);
                assert(out@ =~= "{\"contact\":["@ + contact_items(next));
            }
            i += 1;
        }
        out.append("],\"termsOfServiceAgreed\":true}");
        proof {
            assert(views.take(i as int) =~= views);
        }
        Ok(out)
    }
}

} // verus!
