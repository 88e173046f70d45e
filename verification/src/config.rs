//! The service's settings that its logic reads.

use vstd::prelude::*;

verus! {

/// Settings of the running service.
pub struct Config {
    /// The secret key for Stripe's API.
    pub stripe_secret: String,
    /// The base URL of the web front end, used in links sent by e-mail.
    pub web_host: String,
    /// The id of this deployment, attached to uploads and messages.
    pub instance_id: Option<String>,
    pub s3_bucket: String,
    pub uploads_bucket: String,
    pub aws_access_key_id: String,
    pub aws_secret_key: String,
    /// The queue that receives recordings to fetch, if any.
    pub recorder_queue: Option<String>,
}

} // verus!
