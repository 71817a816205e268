//! The keys the application's secrets are stored under.
use vstd::prelude::*;

verus! {

pub const STEAM_API_KEY: &'static str = "steam_api_key";

pub const BACKPACK_TF_TOKEN: &'static str = "backpack_tf_token";

pub const DISCORD_WEBHOOK_URL: &'static str = "discord_webhook_url";

} // verus!
