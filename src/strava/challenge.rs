use crate::text::same_text;
use vstd::prelude::*;

verus! {

/// The subscription handshake's query parameters.
pub struct Parameters<'r> {
    pub mode: &'r str,
    pub verify_token: &'r str,
    pub challenge: &'r str,
}

/// The handshake's answer: the challenge echoed back.
pub struct Response<'r> {
    pub challenge: &'r str,
}

/// Echoes the challenge when the handshake carries the expected verify
/// token; answers nothing otherwise.
pub fn answer_challenge<'r>(hub: &Parameters<'r>, expected_token: &str) -> (r: Option<Response<'r>>)
    ensures
        r is Some <==> hub.verify_token@ == expected_token@,
        r matches Some(resp) ==> resp.challenge == hub.challenge,
{
    if same_text(hub.verify_token, expected_token) {
        Some(Response { challenge: hub.challenge })
    } else {
        None
    }
}

} // verus!
