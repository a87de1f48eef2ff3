//! The schema registry as this pipeline sees it: where a question about a
//! subject goes, and what the registry's answer means.
//!
//! Sending is the caller's work. It sends what [`SchemaRegistryClient`] hands
//! out and brings back the status and the body of the answer, or the reason
//! why there is none.

use vstd::prelude::*;
use vstd::string::StringExecFns;

verus! {

/// The registry, by the address under which it is reached.
pub struct SchemaRegistryClient<'a> {
    pub base_url: &'a str,
}

/// One POST request to the registry. Its body is the JSON object with the
/// one member `schema`, whose value is the string `schema`.
#[derive(Debug)]
pub struct RegistryRequest {
    pub url: String,
    pub content_type: String,
    pub user_agent: String,
    pub schema: String,
}

/// The registry's answer to one request.
#[derive(Debug)]
pub struct RegistryReply {
    pub status: u16,
    pub body: String,
}

/// The content type of every request.
pub open spec fn content_type() -> Seq<char> {
    "application/vnd.schemaregistry.v1+json"@
}

/// The user agent of every request.
pub open spec fn user_agent() -> Seq<char> {
    "schema-registry-cli"@
}

/// The address at which `subject`'s latest version is compared with a schema.
pub open spec fn compatibility_url(base_url: Seq<char>, subject: Seq<char>) -> Seq<char> {
    base_url + "/compatibility/subjects/"@ + subject + "/versions/latest"@
}

/// The address at which a schema is registered under `subject`.
pub open spec fn registration_url(base_url: Seq<char>, subject: Seq<char>) -> Seq<char> {
    base_url + "/subjects/"@ + subject + "/versions"@
}

/// What an answer says about compatibility. Status 200 carries the
/// registry's verdict, which the caller has decoded from the body's member
/// `is_compatible`; where it could not, `decoded` holds the reason. Status
/// 404 says that the subject has no version yet, so whatever schema comes
/// first is compatible. Any other status is an error, with the body as its
/// message; so is an answer that never came, with the reason why.
pub open spec fn compatibility_of(
    delivery: Result<RegistryReply, String>,
    decoded: Result<bool, String>,
) -> Result<bool, Seq<char>> {
    match delivery {
        Err(reason) => Err(reason@),
        Ok(reply) => if reply.status == 200 {
            match decoded {
                Ok(is_compatible) => Ok(is_compatible),
                Err(reason) => Err(reason@),
            }
        } else if reply.status == 404 {
            Ok(true)
        } else {
            Err(reply.body@)
        },
    }
}

/// What an answer says about a registration: status 200 is success, any
/// other status an error with the body as its message, and an answer that
/// never came an error with the reason why.
pub open spec fn registration_of(delivery: Result<RegistryReply, String>) -> Result<
    (),
    Seq<char>,
> {
    match delivery {
        Err(reason) => Err(reason@),
        Ok(reply) => if reply.status == 200 {
            Ok(())
        } else {
            Err(reply.body@)
        },
    }
}

/// A verdict with its message as a sequence.
pub open spec fn verdict_view<T>(verdict: Result<T, String>) -> Result<T, Seq<char>> {
    match verdict {
        Ok(value) => Ok(value),
        Err(message) => Err(message@),
    }
}

impl<'a> SchemaRegistryClient<'a> {
    fn request(url: String, schema_canonical_form: &str) -> (request: RegistryRequest)
        ensures
            request.url == url,
            request.content_type@ == content_type(),
            request.user_agent@ == user_agent(),
            request.schema@ == schema_canonical_form@,
    {
        RegistryRequest {
            url,
            content_type: String::from_str("application/vnd.schemaregistry.v1+json"),
            user_agent: String::from_str("schema-registry-cli"),
            schema: String::from_str(schema_canonical_form),
        }
    }

    /// The request that asks whether a schema is compatible with the latest
    /// version registered under `schema_name`.
    pub fn compatibility_request(&self, schema_name: &str, schema_canonical_form: &str) -> (request:
        RegistryRequest)
        ensures
            request.url@ == compatibility_url(self.base_url@, schema_name@),
            request.content_type@ == content_type(),
            request.user_agent@ == user_agent(),
            request.schema@ == schema_canonical_form@,
    {
        let mut url = String::from_str(self.base_url);
        url.append("/compatibility/subjects/");
        url.append(schema_name);
        url.append("/versions/latest");
        Self::request(url, schema_canonical_form)
    }

    /// The request that registers a schema under `schema_name`.
    pub fn registration_request(&self, schema_name: &str, schema_canonical_form: &str) -> (request:
        RegistryRequest)
        ensures
            request.url@ == registration_url(self.base_url@, schema_name@),
            request.content_type@ == content_type(),
            request.user_agent@ == user_agent(),
            request.schema@ == schema_canonical_form@,
    {
        let mut url = String::from_str(self.base_url);
        url.append("/subjects/");
        url.append(schema_name);
        url.append("/versions");
        Self::request(url, schema_canonical_form)
    }

    /// Reads the answer to a compatibility request: see [`compatibility_of`].
    pub fn compatibility_verdict(
        delivery: &Result<RegistryReply, String>,
        decoded: &Result<bool, String>,
    ) -> (verdict: Result<bool, String>)
        ensures
            verdict_view(verdict) == compatibility_of(*delivery, *decoded),
    {
        match delivery {
            Err(reason) => Err(reason.clone()),
            Ok(reply) => {
                if reply.status == 200 {
                    match decoded {
                        Ok(is_compatible) => Ok(*is_compatible),
                        Err(reason) => Err(reason.clone()),
                    }
                } else if reply.status == 404 {
                    Ok(true)
                } else {
                    Err(reply.body.clone())
                }
            },
        }
    }

    /// Reads the answer to a registration request: see [`registration_of`].
    pub fn registration_verdict(delivery: &Result<RegistryReply, String>) -> (verdict: Result<
        (),
        String,
    >)
        ensures
            verdict_view(verdict) == registration_of(*delivery),
    {
        match delivery {
            Err(reason) => Err(reason.clone()),
            Ok(reply) => {
                if reply.status == 200 {
                    Ok(())
                } else {
                    Err(reply.body.clone())
                }
            },
        }
    }
}

} // verus!
