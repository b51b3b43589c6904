//! Vision fallback: describe images with a cheap vision model so text-only models can "see" them,
//! via the hosted gateway `/v1/describe` (device-signed and quota'd, mirroring `/v1/search`) or the
//! user's own vision key.
//!
//! The functions here decide what is sent where and what an answer means. A caller asks `describe`
//! for the call to make, makes it, and hands the outcome to `finish_gateway` or `finish_key`.

use crate::data_url;
use crate::json;
use crate::text;
use vstd::prelude::*;

verus! {

/// Where a describe call goes, resolved at dispatch so the turn just calls it. `K` is the type of
/// the user's key, which is handed on and never looked at.
#[derive(Clone)]
pub enum DescriberSource<K> {
    Gateway,
    OwnKey { model: String, key: Box<K> },
}

impl<K> DescriberSource<K> {
    /// The user's own model, or `None` for the gateway.
    pub open spec fn own_model(&self) -> Option<Seq<char>> {
        match *self {
            DescriberSource::Gateway => None,
            DescriberSource::OwnKey { model, .. } => Some(model@),
        }
    }

    /// The name that a user sees for the source.
    pub fn label(&self) -> (r: &str)
        ensures
            r@ == (match self.own_model() {
                None => "aivo (gateway)"@,
                Some(model) => model,
            }),
            *self is Gateway ==> r@ == "aivo (gateway)"@,
            *self matches DescriberSource::OwnKey { model, .. } ==> r@ == model@,
    {
        match self {
            DescriberSource::Gateway => "aivo (gateway)",
            DescriberSource::OwnKey { model, .. } => model.as_str(),
        }
    }
}

/// What an own-key describer is asked to do.
pub const DESCRIBE_PROMPT: &'static str =
    "Transcribe this image for a reader who cannot see it. \
First: all readable text, verbatim, preserving structure (headings, lists, tables, code). \
Then: a concise layout/visual description — UI elements and arrangement, charts with axes \
and approximate values, colors only where meaningful. No commentary.";

/// Decoded-size cap; larger images fail locally, never uploaded.
pub const MAX_IMAGE_BYTES: usize = 5 * 1024 * 1024;

/// How long a describe call may take.
pub const TIMEOUT_SECS: u64 = 60;

/// Latched once describe is known-exhausted this session (quota/auth/config), so the shim falls
/// back to the plain refusal instead of re-hitting the gateway. A session keeps one latch.
#[derive(Clone, Copy, Debug, PartialEq, Eq, Structural)]
pub struct DescribeLatch {
    pub exhausted: bool,
}

impl DescribeLatch {
    /// The latch of a fresh session: open.
    pub fn new() -> (r: Self)
        ensures
            !r.exhausted,
    {
        DescribeLatch { exhausted: false }
    }
}

/// Tells whether describe is exhausted for the rest of the session.
pub fn describe_exhausted(latch: &DescribeLatch) -> (r: bool)
    ensures
        r == latch.exhausted,
{
    latch.exhausted
}

/// The texts of a result.
pub open spec fn texts(r: Result<String, String>) -> Result<Seq<char>, Seq<char>> {
    match r {
        Ok(s) => Ok(s@),
        Err(e) => Err(e@),
    }
}

/// The text of an option.
pub open spec fn text_option(o: Option<String>) -> Option<Seq<char>> {
    match o {
        Some(s) => Some(s@),
        None => None,
    }
}

/// The body of a gateway request.
#[derive(Debug, PartialEq, Eq)]
pub struct GatewayBody {
    pub image: String,
    pub media_type: String,
}

/// A gateway request: `POST` the body as JSON to the endpoint, past any proxy where `no_proxy`.
#[derive(Debug, PartialEq, Eq)]
pub struct GatewayCall {
    pub endpoint: String,
    pub no_proxy: bool,
    pub timeout_secs: u64,
    pub body: GatewayBody,
}

/// The gateway request that a `GatewayCall` is.
pub struct GatewayCallView {
    pub endpoint: Seq<char>,
    pub no_proxy: bool,
    pub timeout_secs: u64,
    pub image: Seq<char>,
    pub media_type: Seq<char>,
}

impl View for GatewayCall {
    type V = GatewayCallView;

    open spec fn view(&self) -> GatewayCallView {
        GatewayCallView {
            endpoint: self.endpoint@,
            no_proxy: self.no_proxy,
            timeout_secs: self.timeout_secs,
            image: self.body.image@,
            media_type: self.body.media_type@,
        }
    }
}

/// A part of a chat message.
#[derive(Debug, PartialEq, Eq)]
pub enum ContentPart {
    Text { text: String },
    ImageUrl { url: String },
}

/// The part that a `ContentPart` is.
pub enum ContentPartView {
    Text { text: Seq<char> },
    ImageUrl { url: Seq<char> },
}

impl View for ContentPart {
    type V = ContentPartView;

    open spec fn view(&self) -> ContentPartView {
        match *self {
            ContentPart::Text { text } => ContentPartView::Text { text: text@ },
            ContentPart::ImageUrl { url } => ContentPartView::ImageUrl { url: url@ },
        }
    }
}

/// A chat request of one message to the user's own model, without tools: the message's role and
/// its parts.
#[derive(Debug, PartialEq, Eq)]
pub struct KeyCall {
    pub model: String,
    pub role: String,
    pub content: Vec<ContentPart>,
    pub timeout_secs: u64,
}

/// The chat request that a `KeyCall` is.
pub struct KeyCallView {
    pub model: Seq<char>,
    pub role: Seq<char>,
    pub content: Seq<ContentPartView>,
    pub timeout_secs: u64,
}

impl View for KeyCall {
    type V = KeyCallView;

    open spec fn view(&self) -> KeyCallView {
        KeyCallView {
            model: self.model@,
            role: self.role@,
            content: self.content@.map_values(|part: ContentPart| part@),
            timeout_secs: self.timeout_secs,
        }
    }
}

/// The call that describes an image.
#[derive(Debug, PartialEq, Eq)]
pub enum DescribeCall {
    Gateway(GatewayCall),
    OwnKey(KeyCall),
}

/// The call that a `DescribeCall` is.
pub enum DescribeCallView {
    Gateway(GatewayCallView),
    OwnKey(KeyCallView),
}

impl View for DescribeCall {
    type V = DescribeCallView;

    open spec fn view(&self) -> DescribeCallView {
        match *self {
            DescribeCall::Gateway(call) => DescribeCallView::Gateway(call@),
            DescribeCall::OwnKey(call) => DescribeCallView::OwnKey(call@),
        }
    }
}

/// How a gateway request ended.
#[derive(Debug, PartialEq, Eq)]
pub enum GatewayEvent {
    /// The HTTP client could not be built.
    NoClient { error: String },
    /// No response came.
    Unreachable { error: String },
    /// A response came; an unreadable body counts as empty.
    Reply { status: u16, text: String },
}

/// How an own-key request ended.
#[derive(Debug, PartialEq, Eq)]
pub enum KeyEvent {
    /// No answer came in time.
    TimedOut,
    /// The request failed.
    Failed { error: String },
    /// The model answered, with or without text.
    Answered { content: Option<String> },
}

/// The number of `=` that fill up the last group of four of a base64 text: none, one or two.
pub open spec fn padding(bytes: Seq<u8>) -> nat {
    let n = bytes.len() as int;
    if n == 0 || n % 4 != 0 || bytes[n - 1] != 0x3d {
        0
    } else if bytes[n - 2] != 0x3d {
        1
    } else {
        2
    }
}

/// The number of bytes that a base64 text stands for: three for every four characters, less the
/// padding. Without padding, the last two or three characters stand for one or two bytes.
pub open spec fn decoded_len(bytes: Seq<u8>) -> int {
    bytes.len() * 3 / 4 - padding(bytes)
}

/// The image is over the size cap: it has more bytes, decoded.
pub open spec fn over_cap(base64: Seq<char>) -> bool {
    decoded_len(vstd::utf8::encode_utf8(base64)) > MAX_IMAGE_BYTES
}

/// The endpoint override is in force: it is set, and not blank.
pub open spec fn overridden(override_endpoint: Option<Seq<char>>) -> bool {
    override_endpoint is Some && text::trimmed(override_endpoint->0).len() > 0
}

/// The gateway request for an image, or the refusal of an exhausted session.
pub open spec fn gateway_call(
    exhausted: bool,
    override_endpoint: Option<Seq<char>>,
    starter_url: Seq<char>,
    media_type: Seq<char>,
    base64: Seq<char>,
) -> Result<GatewayCallView, Seq<char>> {
    if exhausted {
        Err("image describe is unavailable for the rest of this session"@)
    } else {
        Ok(
            GatewayCallView {
                endpoint: if overridden(override_endpoint) {
                    override_endpoint->0
                } else {
                    starter_url + "/v1/describe"@
                },
                no_proxy: overridden(override_endpoint),
                timeout_secs: TIMEOUT_SECS,
                image: base64,
                media_type,
            },
        )
    }
}

/// The chat request for an image: the prompt, then the image.
pub open spec fn key_call(model: Seq<char>, data_url: Seq<char>) -> KeyCallView {
    KeyCallView {
        model,
        role: "user"@,
        content: seq![
            ContentPartView::Text { text: DESCRIBE_PROMPT@ },
            ContentPartView::ImageUrl { url: data_url },
        ],
        timeout_secs: TIMEOUT_SECS,
    }
}

/// The call that describes the image behind a data URL, or why there is none. `own_model` is the
/// user's own model, and `None` for the gateway.
pub open spec fn describe_call(
    own_model: Option<Seq<char>>,
    exhausted: bool,
    override_endpoint: Option<Seq<char>>,
    starter_url: Seq<char>,
    data_url: Seq<char>,
) -> Result<DescribeCallView, Seq<char>> {
    match data_url::data_url_parts(data_url) {
        Some((mime, base64)) if mime.len() > 0 => if over_cap(base64) {
            Err(
                "image exceeds the "@ + text::decimal(MAX_IMAGE_BYTES as nat / (1024 * 1024))
                    + " MB describe limit"@,
            )
        } else {
            match own_model {
                None => match gateway_call(
                    exhausted,
                    override_endpoint,
                    starter_url,
                    mime,
                    base64,
                ) {
                    Ok(call) => Ok(DescribeCallView::Gateway(call)),
                    Err(e) => Err(e),
                },
                Some(model) => Ok(DescribeCallView::OwnKey(key_call(model, data_url))),
            }
        },
        _ => Err("image attachment isn't a base64 data URL"@),
    }
}

/// The statuses that no later request of the session can get past.
pub open spec fn is_persistent(status: u16) -> bool {
    status == 401 || status == 403 || status == 429 || status == 503
}

/// The status of a successful response.
pub open spec fn is_success(status: u16) -> bool {
    200 <= status < 300
}

/// What a user is told of a status that is no success.
pub open spec fn describe_error_message(status: u16) -> Seq<char> {
    if status == 401 {
        "image describe needs sign-in — run `aivo login`"@
    } else if status == 403 {
        "image describe isn't available on your plan"@
    } else if status == 429 {
        "today's image-describe quota is used up"@
    } else if status == 503 {
        "image describe isn't configured"@
    } else if status == 413 {
        "image too large for describe"@
    } else if status == 400 {
        "image couldn't be decoded for describe"@
    } else if status == 502 {
        "image describe is temporarily down"@
    } else {
        "image describe failed (HTTP "@ + text::decimal(status as nat) + ")"@
    }
}

/// The description that a text gives: the text without the white space at its ends, where
/// anything is left of it.
pub open spec fn description(text: Seq<char>, no_text: Seq<char>) -> Result<Seq<char>, Seq<char>> {
    if text::trimmed(text).len() == 0 {
        Err(no_text)
    } else {
        Ok(text::trimmed(text))
    }
}

/// The answer to a successful gateway response with this description member.
pub open spec fn gateway_description(member: Option<Seq<char>>) -> Result<Seq<char>, Seq<char>> {
    description(
        if member is Some {
            member->0
        } else {
            Seq::empty()
        },
        "describe returned no text"@,
    )
}

/// The answer to a gateway request.
pub open spec fn gateway_answer(event: GatewayEvent) -> Result<Seq<char>, Seq<char>> {
    match event {
        GatewayEvent::NoClient { error } => Err("build http client: "@ + error@),
        GatewayEvent::Unreachable { error } => Err(
            "couldn't reach image describe ("@ + error@ + ")"@,
        ),
        GatewayEvent::Reply { status, text } => if is_success(status) {
            gateway_description(json::text_member(json::document(text@), "description"@))
        } else {
            Err(describe_error_message(status))
        },
    }
}

/// The latch after a gateway request: it closes on a persistent status, and never opens.
pub open spec fn latch_after(latch: DescribeLatch, event: GatewayEvent) -> DescribeLatch {
    DescribeLatch {
        exhausted: latch.exhausted || (event is Reply && is_persistent(event->status)),
    }
}

/// The answer to an own-key request.
pub open spec fn key_answer(model: Seq<char>, event: KeyEvent) -> Result<Seq<char>, Seq<char>> {
    match event {
        KeyEvent::TimedOut => Err("image describe via "@ + model + " timed out"@),
        KeyEvent::Failed { error } => Err(
            "image describe via "@ + model + " failed: "@ + error@
                + " — re-pick the describer in /config (Vision fallback → custom)"@,
        ),
        KeyEvent::Answered { content } => description(
            if content is Some {
                content->0@
            } else {
                Seq::empty()
            },
            "describer "@ + model + " returned no text"@,
        ),
    }
}

/// The latch after a series of gateway requests.
pub open spec fn latch_after_all(latch: DescribeLatch, events: Seq<GatewayEvent>) -> DescribeLatch
    decreases events.len(),
{
    if events.len() == 0 {
        latch
    } else {
        latch_after(latch_after_all(latch, events.drop_last()), events.last())
    }
}

/// A call is made exactly where the URL is a base64 data URL with a media type, its payload is
/// within the cap, and, for the gateway, the session is not exhausted.
pub proof fn law_call_is_made_iff(
    own_model: Option<Seq<char>>,
    exhausted: bool,
    override_endpoint: Option<Seq<char>>,
    starter_url: Seq<char>,
    data_url: Seq<char>,
)
    ensures
        describe_call(own_model, exhausted, override_endpoint, starter_url, data_url) is Ok <==> {
            &&& data_url::data_url_parts(data_url) matches Some((mime, base64))
            &&& mime.len() > 0
            &&& !over_cap(base64)
            &&& own_model is Some || !exhausted
        },
{
}

/// The call carries the image as it is: the gateway gets the URL's payload and media type, the
/// user's own model gets the URL, and each source gets its own calls only.
pub proof fn law_call_carries_the_image(
    own_model: Option<Seq<char>>,
    exhausted: bool,
    override_endpoint: Option<Seq<char>>,
    starter_url: Seq<char>,
    data_url: Seq<char>,
)
    ensures
        describe_call(own_model, exhausted, override_endpoint, starter_url, data_url) matches Ok(
            call,
        ) ==> match call {
            DescribeCallView::Gateway(c) => own_model is None && data_url::data_url_parts(data_url)
                == Some((c.media_type, c.image)),
            DescribeCallView::OwnKey(c) => own_model == Some(c.model) && c.content.last() == (
            ContentPartView::ImageUrl { url: data_url }),
        },
{
}

/// An image over the cap is never sent anywhere.
pub proof fn law_oversized_image_is_never_sent(
    own_model: Option<Seq<char>>,
    exhausted: bool,
    override_endpoint: Option<Seq<char>>,
    starter_url: Seq<char>,
    data_url: Seq<char>,
)
    requires
        data_url::data_url_parts(data_url) matches Some((_, base64)) && over_cap(base64),
    ensures
        describe_call(own_model, exhausted, override_endpoint, starter_url, data_url) is Err,
{
}

/// Padded base64 of an image is over the cap exactly where the image is larger than the cap: an
/// image of `decoded_bytes` bytes takes four characters for every three bytes begun, and its last
/// group is filled up with `=`.
pub proof fn law_padded_image_is_over_the_cap_iff_larger(base64: Seq<char>, decoded_bytes: nat)
    requires
        vstd::utf8::encode_utf8(base64).len() == (decoded_bytes + 2) / 3 * 4,
        padding(vstd::utf8::encode_utf8(base64)) == (decoded_bytes + 2) / 3 * 3 - decoded_bytes,
    ensures
        decoded_len(vstd::utf8::encode_utf8(base64)) == decoded_bytes,
        over_cap(base64) <==> decoded_bytes > MAX_IMAGE_BYTES,
{
}

/// Unpadded base64 of an image is over the cap exactly where the image is larger than the cap: an
/// image of `decoded_bytes` bytes takes as many characters as hold its bits, six in each.
pub proof fn law_unpadded_image_is_over_the_cap_iff_larger(base64: Seq<char>, decoded_bytes: nat)
    requires
        vstd::utf8::encode_utf8(base64).len() == (decoded_bytes * 8 + 5) / 6,
        padding(vstd::utf8::encode_utf8(base64)) == 0,
    ensures
        decoded_len(vstd::utf8::encode_utf8(base64)) == decoded_bytes,
        over_cap(base64) <==> decoded_bytes > MAX_IMAGE_BYTES,
{
}

/// An image that was written as a data URL reaches the gateway with the media type and the payload
/// it was written from.
pub proof fn law_written_image_reaches_the_gateway(
    starter_url: Seq<char>,
    mime: Seq<char>,
    payload: Seq<char>,
)
    requires
        mime.len() > 0,
        !mime.contains(','),
        !mime.contains(';'),
        !data_url::is_base64_tag(mime),
        payload.len() > 0,
        !over_cap(payload),
    ensures
        describe_call(
            None,
            false,
            None,
            starter_url,
            "data:"@ + mime + ";base64,"@ + payload,
        ) == Ok::<DescribeCallView, Seq<char>>(
            DescribeCallView::Gateway(
                (GatewayCallView {
                    endpoint: starter_url + "/v1/describe"@,
                    no_proxy: false,
                    timeout_secs: TIMEOUT_SECS,
                    image: payload,
                    media_type: mime,
                }),
            ),
        ),
{
    reveal_strlit(";base64,");
    reveal_strlit("base64");
    data_url::law_parsing_reads_back_a_written_url(mime, Seq::empty(), "base64"@, payload);
    assert("data:"@ + mime + ";base64,"@ + payload =~= "data:"@ + mime + Seq::<char>::empty() + seq![
        ';',
    ] + "base64"@ + seq![','] + payload);
}

/// The user's own model is asked whatever the state of the gateway is.
pub proof fn law_own_key_does_not_depend_on_the_gateway(
    model: Seq<char>,
    exhausted: bool,
    override_endpoint: Option<Seq<char>>,
    starter_url: Seq<char>,
    data_url: Seq<char>,
)
    ensures
        describe_call(Some(model), exhausted, override_endpoint, starter_url, data_url)
            == describe_call(Some(model), false, None, Seq::empty(), data_url),
{
}

/// A blank endpoint override is no override.
pub proof fn law_blank_override_is_ignored(
    exhausted: bool,
    blank: Seq<char>,
    starter_url: Seq<char>,
    media_type: Seq<char>,
    base64: Seq<char>,
)
    requires
        forall|i: int| 0 <= i < blank.len() ==> text::is_white_space(blank[i]),
    ensures
        gateway_call(exhausted, Some(blank), starter_url, media_type, base64) == gateway_call(
            exhausted,
            None,
            starter_url,
            media_type,
            base64,
        ),
{
    text::law_trimmed_is_empty_iff_blank(blank);
}

/// A session ends up exhausted exactly where it was already or a persistent status came: nothing
/// else closes the latch, and nothing opens it again.
pub proof fn law_latch_closes_iff_a_persistent_reply_came(
    latch: DescribeLatch,
    events: Seq<GatewayEvent>,
)
    ensures
        latch_after_all(latch, events).exhausted <==> latch.exhausted || exists|i: int|
            0 <= i < events.len() && #[trigger] events[i] is Reply && is_persistent(
                events[i]->status,
            ),
    decreases events.len(),
{
    if events.len() > 0 {
        let before = events.drop_last();
        law_latch_closes_iff_a_persistent_reply_came(latch, before);
        if exists|i: int|
            0 <= i < before.len() && #[trigger] before[i] is Reply && is_persistent(
                before[i]->status,
            ) {
            let i = choose|i: int|
                0 <= i < before.len() && #[trigger] before[i] is Reply && is_persistent(
                    before[i]->status,
                );
            assert(events[i] == before[i]);
        }
        if exists|i: int|
            0 <= i < events.len() && #[trigger] events[i] is Reply && is_persistent(
                events[i]->status,
            ) {
            let i = choose|i: int|
                0 <= i < events.len() && #[trigger] events[i] is Reply && is_persistent(
                    events[i]->status,
                );
            if i < before.len() {
                assert(before[i] == events[i]);
            }
        }
    }
}

/// Once a persistent status came, the gateway is not asked again in the session, whatever else
/// came before or after it.
pub proof fn law_no_gateway_call_after_a_persistent_reply(
    latch: DescribeLatch,
    events: Seq<GatewayEvent>,
    persistent: int,
    override_endpoint: Option<Seq<char>>,
    starter_url: Seq<char>,
    data_url: Seq<char>,
)
    requires
        0 <= persistent < events.len(),
        events[persistent] is Reply,
        is_persistent(events[persistent]->status),
    ensures
        describe_call(
            None,
            latch_after_all(latch, events).exhausted,
            override_endpoint,
            starter_url,
            data_url,
        ) is Err,
{
    law_latch_closes_iff_a_persistent_reply_came(latch, events);
}

/// A successful response never closes the latch, with or without a description.
pub proof fn law_success_never_latches(latch: DescribeLatch, status: u16, text: String)
    requires
        is_success(status),
    ensures
        latch_after(latch, GatewayEvent::Reply { status, text }) == latch,
{
}

/// A description is never empty, and has no white space at its ends.
pub proof fn law_descriptions_are_trimmed_and_not_empty(
    model: Seq<char>,
    gateway: GatewayEvent,
    key: KeyEvent,
)
    ensures
        gateway_answer(gateway) matches Ok(desc) ==> desc.len() > 0 && !text::is_white_space(
            desc.first(),
        ) && !text::is_white_space(desc.last()),
        key_answer(model, key) matches Ok(desc) ==> desc.len() > 0 && !text::is_white_space(
            desc.first(),
        ) && !text::is_white_space(desc.last()),
{
    if let GatewayEvent::Reply { text, .. } = gateway {
        let member = json::text_member(json::document(text@), "description"@);
        if member is Some {
            text::law_trimmed_ends_are_not_space(member->0);
        }
    }
    if let KeyEvent::Answered { content } = key {
        if content is Some {
            text::law_trimmed_ends_are_not_space(content->0@);
        }
    }
}

/// Every status has something to tell the user.
pub proof fn law_every_status_has_a_message(status: u16)
    ensures
        describe_error_message(status).len() > 0,
{
    reveal_strlit("image describe needs sign-in — run `aivo login`");
    reveal_strlit("image describe isn't available on your plan");
    reveal_strlit("today's image-describe quota is used up");
    reveal_strlit("image describe isn't configured");
    reveal_strlit("image too large for describe");
    reveal_strlit("image couldn't be decoded for describe");
    reveal_strlit("image describe is temporarily down");
    reveal_strlit("image describe failed (HTTP ");
}

/// A base64 text whose length is a multiple of four is padded by the `=` at its end, one or two of
/// them; any other text is not padded.
pub proof fn law_padding_is_the_equals_signs_at_the_end(head: Seq<u8>)
    ensures
        padding(head) <= 2,
        head.len() % 4 != 0 ==> padding(head) == 0,
        head.len() > 0 && head.last() != '=' as u8 ==> padding(head) == 0,
        head.len() % 4 == 3 && head.last() != '=' as u8 ==> padding(head.push('=' as u8)) == 1,
        head.len() % 4 == 2 ==> padding(head.push('=' as u8).push('=' as u8)) == 2,
        padding(Seq::<u8>::empty()) == 0,
{
}

/// A payload of `n` bytes stands for at most three bytes by four, and for at most two less than
/// that: so it is over the cap of five megabytes wherever the lesser number is more, and within it
/// wherever the greater is not.
pub proof fn law_long_payloads_are_over_the_cap(base64: Seq<char>)
    ensures
        vstd::utf8::encode_utf8(base64).len() * 3 / 4 - 2 > 5_242_880 ==> over_cap(base64),
        vstd::utf8::encode_utf8(base64).len() * 3 / 4 <= 5_242_880 ==> !over_cap(base64),
{
}

/// Between those, the `=` at the end decide: they stand for nothing.
pub proof fn law_equals_signs_do_not_count_against_the_cap(base64: Seq<char>)
    ensures
        ({
            let bytes = vstd::utf8::encode_utf8(base64);
            let n = bytes.len() as int;
            let padded = n > 0 && n % 4 == 0;
            &&& !(padded && bytes[n - 1] == '=' as u8) ==> (over_cap(base64) <==> n * 3 / 4
                > 5_242_880)
            &&& padded && bytes[n - 1] == '=' as u8 && bytes[n - 2] != '=' as u8 ==> (over_cap(base64)
                <==> n / 4 * 3 - 1 > 5_242_880)
            &&& padded && bytes[n - 1] == '=' as u8 && bytes[n - 2] == '=' as u8 ==> (over_cap(base64)
                <==> n / 4 * 3 - 2 > 5_242_880)
        }),
{
}

/// A successful reply is answered with its whole description: where the `description` member of the
/// JSON body is white space, a text that neither starts nor ends with white space, and white space
/// again, the answer is the text in the middle.
pub proof fn law_gateway_gives_the_whole_description(
    status: u16,
    text: String,
    a: Seq<char>,
    d: Seq<char>,
    b: Seq<char>,
)
    requires
        200 <= status <= 299,
        json::document(text@) is Some,
        json::document(text@)->0.contains_key("description"@),
        json::document(text@)->0["description"@] == Some(a + d + b),
        forall|i: int| 0 <= i < a.len() ==> text::is_white_space(a[i]),
        forall|i: int| 0 <= i < b.len() ==> text::is_white_space(b[i]),
        d.len() > 0,
        !text::is_white_space(d.first()),
        !text::is_white_space(d.last()),
    ensures
        gateway_answer(GatewayEvent::Reply { status, text }) == Ok::<Seq<char>, Seq<char>>(d),
{
    text::law_trimming_keeps_the_middle(a, d, b);
}

/// What is left of a description member is the whole of it between the white space at its ends.
pub proof fn law_description_member_is_given_whole(a: Seq<char>, d: Seq<char>, b: Seq<char>)
    requires
        forall|i: int| 0 <= i < a.len() ==> text::is_white_space(a[i]),
        forall|i: int| 0 <= i < b.len() ==> text::is_white_space(b[i]),
        d.len() > 0,
        !text::is_white_space(d.first()),
        !text::is_white_space(d.last()),
    ensures
        gateway_description(Some(a + d + b)) == Ok::<Seq<char>, Seq<char>>(d),
{
    text::law_trimming_keeps_the_middle(a, d, b);
}

/// A description member is refused exactly where there is none or it is blank.
pub proof fn law_description_member_is_refused_iff_blank(member: Seq<char>)
    ensures
        gateway_description(None) == Err::<Seq<char>, Seq<char>>("describe returned no text"@),
        gateway_description(Some(member)) is Ok <==> exists|i: int|
            0 <= i < member.len() && !text::is_white_space(#[trigger] member[i]),
        gateway_description(Some(member)) matches Err(e) ==> e == "describe returned no text"@,
{
    text::law_trimmed_is_empty_iff_blank(member);
}

/// A reply is answered with a description exactly where its status is between 200 and 299 and its
/// body is a JSON object whose `description` is a string that is not blank. Any other reply of those
/// statuses is answered with one refusal.
pub proof fn law_gateway_describes_iff(status: u16, text: String)
    ensures
        gateway_answer(GatewayEvent::Reply { status, text }) is Ok <==> {
            &&& 200 <= status <= 299
            &&& json::document(text@) matches Some(doc)
            &&& doc.contains_key("description"@)
            &&& doc["description"@] matches Some(s)
            &&& exists|i: int| 0 <= i < s.len() && !text::is_white_space(#[trigger] s[i])
        },
        200 <= status <= 299 ==> (gateway_answer(GatewayEvent::Reply { status, text }) matches Err(e)
            ==> e == "describe returned no text"@),
{
    let doc = json::document(text@);
    if doc is Some && doc->0.contains_key("description"@) && doc->0["description"@] is Some {
        text::law_trimmed_is_empty_iff_blank(doc->0["description"@]->0);
    }
}

/// A reply of any other status is answered with the wording for its status. The statuses 401, 403,
/// 429 and 503 end the gateway for the session; no other status does, success or failure.
pub proof fn law_failed_reply_names_its_status(latch: DescribeLatch, status: u16, text: String)
    ensures
        status < 200 || status > 299 ==> gateway_answer(GatewayEvent::Reply { status, text })
            == Err::<Seq<char>, Seq<char>>(describe_error_message(status)),
        latch_after(latch, GatewayEvent::Reply { status, text }).exhausted <==> latch.exhausted
            || status == 401 || status == 403 || status == 429 || status == 503,
{
}

/// The wording for each status, and for a status without one its number.
pub proof fn law_status_wording(status: u16)
    ensures
        is_persistent(status) <==> status == 401 || status == 403 || status == 429 || status == 503,
        describe_error_message(401) == "image describe needs sign-in — run `aivo login`"@,
        describe_error_message(403) == "image describe isn't available on your plan"@,
        describe_error_message(429) == "today's image-describe quota is used up"@,
        describe_error_message(503) == "image describe isn't configured"@,
        describe_error_message(413) == "image too large for describe"@,
        describe_error_message(400) == "image couldn't be decoded for describe"@,
        describe_error_message(502) == "image describe is temporarily down"@,
        status != 401 && status != 403 && status != 429 && status != 503 && status != 413 && status
            != 400 && status != 502 ==> describe_error_message(status)
            == "image describe failed (HTTP "@ + text::decimal(status as nat) + ")"@,
{
}

/// A request that brought no reply is answered with its error, and leaves the latch as it was.
pub proof fn law_no_reply_is_no_latch(latch: DescribeLatch, error: String)
    ensures
        gateway_answer(GatewayEvent::NoClient { error }) == Err::<Seq<char>, Seq<char>>(
            "build http client: "@ + error@,
        ),
        gateway_answer(GatewayEvent::Unreachable { error }) == Err::<Seq<char>, Seq<char>>(
            "couldn't reach image describe ("@ + error@ + ")"@,
        ),
        latch_after(latch, GatewayEvent::NoClient { error }) == latch,
        latch_after(latch, GatewayEvent::Unreachable { error }) == latch,
{
}

/// The answer of the user's own model is given whole, without the white space at its ends, however
/// long it is.
pub proof fn law_own_key_gives_the_whole_answer(
    model: Seq<char>,
    content: String,
    a: Seq<char>,
    d: Seq<char>,
    b: Seq<char>,
)
    requires
        content@ == a + d + b,
        forall|i: int| 0 <= i < a.len() ==> text::is_white_space(a[i]),
        forall|i: int| 0 <= i < b.len() ==> text::is_white_space(b[i]),
        d.len() > 0,
        !text::is_white_space(d.first()),
        !text::is_white_space(d.last()),
    ensures
        key_answer(model, KeyEvent::Answered { content: Some(content) }) == Ok::<
            Seq<char>,
            Seq<char>,
        >(d),
{
    text::law_trimming_keeps_the_middle(a, d, b);
}

/// An answer of the user's own model is refused exactly where it has no text or a blank one.
pub proof fn law_own_key_answer_is_refused_iff_blank(model: Seq<char>, content: String)
    ensures
        key_answer(model, KeyEvent::Answered { content: Some(content) }) is Ok <==> exists|i: int|
            0 <= i < content@.len() && !text::is_white_space(#[trigger] content@[i]),
        key_answer(model, KeyEvent::Answered { content: Some(content) }) matches Err(e) ==> e
            == "describer "@ + model + " returned no text"@,
        key_answer(model, KeyEvent::Answered { content: None }) == Err::<Seq<char>, Seq<char>>(
            "describer "@ + model + " returned no text"@,
        ),
{
    text::law_trimmed_is_empty_iff_blank(content@);
}

/// A failed own-key request names the model and the error.
pub proof fn law_own_key_failures_name_the_model(model: Seq<char>, error: String)
    ensures
        key_answer(model, KeyEvent::TimedOut) == Err::<Seq<char>, Seq<char>>(
            "image describe via "@ + model + " timed out"@,
        ),
        key_answer(model, KeyEvent::Failed { error }) == Err::<Seq<char>, Seq<char>>(
            "image describe via "@ + model + " failed: "@ + error@
                + " — re-pick the describer in /config (Vision fallback → custom)"@,
        ),
{
}

/// Which refusal an image gets before any call: first for what is no base64 data URL with a media
/// type, then for its size, then, of the gateway alone, for an exhausted session.
pub proof fn law_refusals_before_any_call(
    own_model: Option<Seq<char>>,
    exhausted: bool,
    override_endpoint: Option<Seq<char>>,
    starter_url: Seq<char>,
    data_url: Seq<char>,
)
    ensures
        ({
            let call = describe_call(
                own_model,
                exhausted,
                override_endpoint,
                starter_url,
                data_url,
            );
            match data_url::data_url_parts(data_url) {
                None => call == Err::<DescribeCallView, Seq<char>>(
                    "image attachment isn't a base64 data URL"@,
                ),
                Some((mime, base64)) => {
                    &&& mime.len() == 0 ==> call == Err::<DescribeCallView, Seq<char>>(
                        "image attachment isn't a base64 data URL"@,
                    )
                    &&& mime.len() > 0 && over_cap(base64) ==> call == Err::<
                        DescribeCallView,
                        Seq<char>,
                    >("image exceeds the 5 MB describe limit"@)
                    &&& mime.len() > 0 && !over_cap(base64) && own_model is None && exhausted
                        ==> call == Err::<DescribeCallView, Seq<char>>(
                        "image describe is unavailable for the rest of this session"@,
                    )
                },
            }
        }),
{
    reveal_strlit("image exceeds the ");
    reveal_strlit(" MB describe limit");
    reveal_strlit("image exceeds the 5 MB describe limit");
    text::law_numerals_are_positional(0, 5);
    let cap = MAX_IMAGE_BYTES as nat;
    assert(cap / (1024 * 1024) == 5) by (nonlinear_arith)
        requires
            cap == 5_242_880,
    ;
    reveal_strlit("0123456789");
    assert("image exceeds the "@ + text::decimal(5) + " MB describe limit"@
        =~= "image exceeds the 5 MB describe limit"@);
}

/// Where a gateway request goes and what it holds: to an override that is not blank, past any
/// proxy; otherwise to `/v1/describe` of the starter URL. It takes the image and the media type as
/// they are and may take a minute. An exhausted session makes none.
pub proof fn law_gateway_request(
    override_endpoint: Option<Seq<char>>,
    starter_url: Seq<char>,
    media_type: Seq<char>,
    base64: Seq<char>,
)
    ensures
        gateway_call(true, override_endpoint, starter_url, media_type, base64) == Err::<
            GatewayCallView,
            Seq<char>,
        >("image describe is unavailable for the rest of this session"@),
        gateway_call(false, override_endpoint, starter_url, media_type, base64) matches Ok(call) && {
            &&& call.image == base64
            &&& call.media_type == media_type
            &&& call.timeout_secs == 60
            &&& call.no_proxy <==> (override_endpoint matches Some(s) && exists|i: int|
                0 <= i < s.len() && !text::is_white_space(#[trigger] s[i]))
            &&& call.no_proxy ==> override_endpoint == Some(call.endpoint)
            &&& !call.no_proxy ==> call.endpoint == starter_url + "/v1/describe"@
        },
{
    if override_endpoint is Some {
        text::law_trimmed_is_empty_iff_blank(override_endpoint->0);
    }
}

/// What the user's own model is asked: one user message of the prompt and the image, in that order,
/// to be answered within a minute.
pub proof fn law_own_key_request(model: Seq<char>, data_url: Seq<char>)
    ensures
        key_call(model, data_url).model == model,
        key_call(model, data_url).role == "user"@,
        key_call(model, data_url).timeout_secs == 60,
        key_call(model, data_url).content.len() == 2,
        key_call(model, data_url).content[0] == (ContentPartView::Text { text: DESCRIBE_PROMPT@ }),
        key_call(model, data_url).content[1] == (ContentPartView::ImageUrl { url: data_url }),
{
}

/// The call for an image that is not refused is the request of its source.
pub proof fn law_call_is_the_request_of_its_source(
    model: Seq<char>,
    exhausted: bool,
    override_endpoint: Option<Seq<char>>,
    starter_url: Seq<char>,
    data_url: Seq<char>,
)
    ensures
        describe_call(Some(model), exhausted, override_endpoint, starter_url, data_url) matches Ok(c)
            ==> c == DescribeCallView::OwnKey(key_call(model, data_url)),
        describe_call(None, exhausted, override_endpoint, starter_url, data_url) matches Ok(c) ==> {
            let (mime, base64) = data_url::data_url_parts(data_url)->0;
            &&& c matches DescribeCallView::Gateway(call)
            &&& gateway_call(false, override_endpoint, starter_url, mime, base64) == Ok::<
                GatewayCallView,
                Seq<char>,
            >(call)
        },
{
}

/// A source is the gateway or the model it names, whatever its key is.
pub proof fn law_own_model_is_the_named_model<K>(model: String, key: Box<K>)
    ensures
        DescriberSource::<K>::Gateway.own_model() is None,
        (DescriberSource::OwnKey { model, key }).own_model() == Some(model@),
{
}

/// The models of results, options and calls show every field as it is.
pub proof fn law_views_show_every_field(
    text: String,
    gateway: GatewayCall,
    key: KeyCall,
    call: DescribeCall,
)
    ensures
        texts(Ok(text)) == Ok::<Seq<char>, Seq<char>>(text@),
        texts(Err(text)) == Err::<Seq<char>, Seq<char>>(text@),
        text_option(Some(text)) == Some(text@),
        text_option(None) is None,
        gateway@.endpoint == gateway.endpoint@,
        gateway@.no_proxy == gateway.no_proxy,
        gateway@.timeout_secs == gateway.timeout_secs,
        gateway@.image == gateway.body.image@,
        gateway@.media_type == gateway.body.media_type@,
        key@.model == key.model@,
        key@.role == key.role@,
        key@.timeout_secs == key.timeout_secs,
        key@.content.len() == key.content@.len(),
        forall|i: int|
            0 <= i < key.content@.len() ==> match #[trigger] key.content@[i] {
                ContentPart::Text { text } => key@.content[i] == (ContentPartView::Text {
                    text: text@,
                }),
                ContentPart::ImageUrl { url } => key@.content[i] == (ContentPartView::ImageUrl {
                    url: url@,
                }),
            },
        match call {
            DescribeCall::Gateway(c) => call@ == DescribeCallView::Gateway(c@),
            DescribeCall::OwnKey(c) => call@ == DescribeCallView::OwnKey(c@),
        },
{
}

/// Cap check on base64 length and padding: no decode.
pub fn image_too_large(base64: &str) -> (r: bool)
    ensures
        r == over_cap(base64@),
{
    let bytes = base64.as_bytes();
    let n: usize = bytes.len();
    let mut padding: usize = 0;
    if n > 0 && n % 4 == 0 && bytes[n - 1] == 0x3d {
        padding = if bytes[n - 2] == 0x3d {
            2
        } else {
            1
        };
    }
    n / 4 * 3 + n % 4 * 3 / 4 - padding > MAX_IMAGE_BYTES
}

/// A status that is no success: an actionable message, and whether to latch the session exhausted.
pub fn classify_describe_error(status: u16) -> (r: (String, bool))
    ensures
        r.0@ == describe_error_message(status),
        r.1 == is_persistent(status),
{
    match status {
        401 => ("image describe needs sign-in — run `aivo login`".to_owned(), true),
        403 => ("image describe isn't available on your plan".to_owned(), true),
        429 => ("today's image-describe quota is used up".to_owned(), true),
        503 => ("image describe isn't configured".to_owned(), true),
        413 => ("image too large for describe".to_owned(), false),
        400 => ("image couldn't be decoded for describe".to_owned(), false),
        502 => ("image describe is temporarily down".to_owned(), false),
        _ => {
            let mut message: String = "image describe failed (HTTP ".to_owned();
            let number = text::decimal_text(status as i64);
            message.append(number.as_str());
            message.append(")");
            (message, false)
        },
    }
}

/// The gateway request for an image. `override_endpoint` is what `AIVO_DESCRIBE_ENDPOINT` holds: it
/// points at loopback, which a proxy would swallow, so an override goes past any proxy.
pub fn describe_via_gateway(
    latch: &DescribeLatch,
    override_endpoint: Option<String>,
    starter_url: &str,
    media_type: &str,
    base64: &str,
) -> (r: Result<GatewayCall, String>)
    ensures
        r matches Ok(call) ==> gateway_call(
            latch.exhausted,
            text_option(override_endpoint),
            starter_url@,
            media_type@,
            base64@,
        ) == Ok::<GatewayCallView, Seq<char>>(call@),
        r matches Err(e) ==> gateway_call(
            latch.exhausted,
            text_option(override_endpoint),
            starter_url@,
            media_type@,
            base64@,
        ) == Err::<GatewayCallView, Seq<char>>(e@),
{
    if describe_exhausted(latch) {
        return Err("image describe is unavailable for the rest of this session".to_owned());
    }
    let mut no_proxy: bool = false;
    let mut endpoint: String = starter_url.to_owned();
    endpoint.append("/v1/describe");
    if let Some(s) = override_endpoint {
        if !text::trim(s.as_str()).is_empty() {
            no_proxy = true;
            endpoint = s;
        }
    }
    Ok(
        GatewayCall {
            endpoint,
            no_proxy,
            timeout_secs: TIMEOUT_SECS,
            body: GatewayBody { image: base64.to_owned(), media_type: media_type.to_owned() },
        },
    )
}

/// The chat request for an image to the user's own model.
pub fn describe_via_key(model: &str, data_url: &str) -> (r: KeyCall)
    ensures
        r@ == key_call(model@, data_url@),
{
    let mut content: Vec<ContentPart> = Vec::new();
    content.push(ContentPart::Text { text: DESCRIBE_PROMPT.to_owned() });
    content.push(ContentPart::ImageUrl { url: data_url.to_owned() });
    let call = KeyCall {
        model: model.to_owned(),
        role: "user".to_owned(),
        content,
        timeout_secs: TIMEOUT_SECS,
    };
    assert(call@.content =~= key_call(model@, data_url@).content);
    call
}

/// The call that describes the image behind `data_url`, or why there is none.
pub fn describe<K>(
    src: &DescriberSource<K>,
    latch: &DescribeLatch,
    override_endpoint: Option<String>,
    starter_url: &str,
    data_url: &str,
) -> (r: Result<DescribeCall, String>)
    ensures
        r matches Ok(call) ==> describe_call(
            src.own_model(),
            latch.exhausted,
            text_option(override_endpoint),
            starter_url@,
            data_url@,
        ) == Ok::<DescribeCallView, Seq<char>>(call@),
        r matches Err(e) ==> describe_call(
            src.own_model(),
            latch.exhausted,
            text_option(override_endpoint),
            starter_url@,
            data_url@,
        ) == Err::<DescribeCallView, Seq<char>>(e@),
{
    match data_url::parse_data_url(data_url) {
        Some((mime, base64)) => {
            if mime.is_empty() {
                return Err("image attachment isn't a base64 data URL".to_owned());
            }
            if image_too_large(base64) {
                let mut message: String = "image exceeds the ".to_owned();
                let megabytes = text::decimal_text((MAX_IMAGE_BYTES / (1024 * 1024)) as i64);
                message.append(megabytes.as_str());
                message.append(" MB describe limit");
                return Err(message);
            }
            match src {
                DescriberSource::Gateway => match describe_via_gateway(
                    latch,
                    override_endpoint,
                    starter_url,
                    mime,
                    base64,
                ) {
                    Ok(call) => Ok(DescribeCall::Gateway(call)),
                    Err(e) => Err(e),
                },
                DescriberSource::OwnKey { model, .. } => Ok(
                    DescribeCall::OwnKey(describe_via_key(model.as_str(), data_url)),
                ),
            }
        },
        None => Err("image attachment isn't a base64 data URL".to_owned()),
    }
}

/// The answer to a successful gateway response with this description member.
pub fn accept_description(member: Option<String>) -> (r: Result<String, String>)
    ensures
        texts(r) == gateway_description(text_option(member)),
{
    let text = match member {
        Some(s) => s,
        None => String::new(),
    };
    let trimmed = text::trim(text.as_str());
    if trimmed.is_empty() {
        Err("describe returned no text".to_owned())
    } else {
        Ok(trimmed.to_owned())
    }
}

/// The answer to a gateway request. Latches `latch` on persistent failures so callers can stop
/// offering the shim this session.
pub fn finish_gateway(latch: &mut DescribeLatch, event: GatewayEvent) -> (r: Result<String, String>)
    ensures
        texts(r) == gateway_answer(event),
        *final(latch) == latch_after(*old(latch), event),
{
    match event {
        GatewayEvent::NoClient { error } => {
            let mut message: String = "build http client: ".to_owned();
            message.append(error.as_str());
            Err(message)
        },
        GatewayEvent::Unreachable { error } => {
            let mut message: String = "couldn't reach image describe (".to_owned();
            message.append(error.as_str());
            message.append(")");
            Err(message)
        },
        GatewayEvent::Reply { status, text } => {
            if 200 <= status && status < 300 {
                return accept_description(json::string_member(text.as_str(), "description"));
            }
            let (message, persistent) = classify_describe_error(status);
            if persistent {
                latch.exhausted = true;
            }
            Err(message)
        },
    }
}

/// The answer to a request to the user's own model.
pub fn finish_key(model: &str, event: KeyEvent) -> (r: Result<String, String>)
    ensures
        texts(r) == key_answer(model@, event),
{
    match event {
        KeyEvent::TimedOut => {
            let mut message: String = "image describe via ".to_owned();
            message.append(model);
            message.append(" timed out");
            Err(message)
        },
        KeyEvent::Failed { error } => {
            let mut message: String = "image describe via ".to_owned();
            message.append(model);
            message.append(" failed: ");
            message.append(error.as_str());
            message.append(" — re-pick the describer in /config (Vision fallback → custom)");
            Err(message)
        },
        KeyEvent::Answered { content } => {
            let text = match content {
                Some(s) => s,
                None => String::new(),
            };
            let trimmed = text::trim(text.as_str());
            if trimmed.is_empty() {
                let mut message: String = "describer ".to_owned();
                message.append(model);
                message.append(" returned no text");
                Err(message)
            } else {
                Ok(trimmed.to_owned())
            }
        },
    }
}

/// Substitution wrapper around a description.
pub fn format_described_image(desc: &str) -> (r: String)
    ensures
        r@ == "[Image] (described for a text-only model)\n"@ + desc@,
{
    let mut out: String = "[Image] (described for a text-only model)\n".to_owned();
    out.append(desc);
    out
}

} // verus!
