//! The message model: a mutable builder collects delivery options, and
//! `finalize` maps them once into the immutable wire-shaped message.  The
//! wire JSON text of the message is specified exactly by `wire_text`, and
//! the lookup lemmas state that a field appears in the serialized object
//! if and only if it was set, under its exact schema key.

use vstd::prelude::*;

use crate::ser::fields_view;
use crate::ser::json_bool;
use crate::ser::json_bool_of;
use crate::ser::json_str;
use crate::ser::json_string_of;
use crate::ser::lookup;
use crate::ser::obj_text;
use crate::ser::opt_field;
use crate::ser::push_opt;
use crate::ser::write_obj;

verus! {

/// Delivery priority hint for a message.
#[derive(Clone, Copy, Debug, PartialEq, Eq, Structural)]
pub enum Priority {
    Normal,
    High,
}

/// Visibility of a notification on the lock screen.
#[derive(Clone, Copy, Debug, PartialEq, Eq, Structural)]
pub enum Visibility {
    Unspecified,
    Private,
    Public,
    Secret,
}

/// Controls when a notification may be proxied.
#[derive(Clone, Copy, Debug, PartialEq, Eq, Structural)]
pub enum Proxy {
    Unspecified,
    Allow,
    Deny,
    IfPriorityLowered,
}

/// A human-visible notification: title, body text and an image URL.
#[derive(Clone, Debug)]
pub struct NotificationV2 {
    /// The notification's title.
    pub title: Option<String>,
    /// The notification's body text.
    pub body: Option<String>,
    /// URL of an image to be downloaded on the device and displayed.
    pub image: Option<String>,
}

/// Durations for the blinking of the notification LED.
#[derive(Clone, Debug)]
pub struct LightSettings {
    pub light_on_duration: Option<String>,
    pub light_off_duration: Option<String>,
}

/// The platform-specific notification block of the gateway schema.
#[derive(Clone, Debug)]
pub struct AndroidNotification {
    /// The notification's title.
    pub title: Option<String>,
    /// The notification's body text.
    pub body: Option<String>,
    /// Drawable resource name for the notification icon.
    pub icon: Option<String>,
    /// The notification's icon color, in `#rrggbb` format.
    pub color: Option<String>,
    /// Sound to play on arrival: `default` or a bundled sound resource.
    pub sound: Option<String>,
    /// Identifier used to replace an existing notification in the drawer.
    pub tag: Option<String>,
    /// Action launched when the user clicks the notification.
    pub click_action: Option<String>,
    /// Key of a localized string resource for the body text.
    pub body_loc_key: Option<String>,
    pub body_loc_args: Option<Vec<String>>,
    pub title_loc_key: Option<String>,
    pub title_loc_args: Option<Vec<String>>,
    pub channel_id: Option<String>,
    pub ticker: Option<String>,
    pub sticky: Option<bool>,
    pub event_time: Option<String>,
    pub local_only: Option<bool>,
    pub notification_priority: Option<Priority>,
    pub default_sound: Option<bool>,
    pub default_vibrate_timings: Option<bool>,
    pub default_light_settings: Option<bool>,
    pub vibrate_timings: Option<Vec<String>>,
    pub visibility: Option<Visibility>,
    pub notification_count: Option<i64>,
    /// URL of an image to be displayed in the notification.
    pub image: Option<String>,
    pub bypass_proxy_notification: Option<bool>,
    /// Setting to control when a notification may be proxied.
    pub proxy: Option<Proxy>,
}

/// Platform-level delivery options for a message.
#[derive(Clone, Debug)]
pub struct AndroidConfig {
    /// Identifier of a group of messages that can be collapsed.
    pub collapse_key: Option<String>,
    /// Message priority: normal or high.
    pub priority: Option<Priority>,
    /// Offline retention duration, encoded as seconds with an `s` suffix.
    pub ttl: Option<String>,
    /// Package name the registration token must match.
    pub restricted_package_name: Option<String>,
    /// Free-form key/value payload: the text of one JSON document.
    pub data: Option<String>,
    /// Whether delivery in direct boot mode is allowed.
    pub direct_boot_ok: Option<bool>,
}

/// Options attached to the iOS configuration block.
#[derive(Clone, Debug)]
pub struct ApnsFcmOptions {
    pub analytics_label: Option<String>,
    pub image: Option<String>,
}

/// The iOS configuration block: headers and payload hold the text of one
/// JSON document each.
#[derive(Clone, Debug)]
pub struct ApnsConfig {
    pub headers: Option<String>,
    pub payload: Option<String>,
    pub fcm_options: Option<ApnsFcmOptions>,
}

/// The message object of the wire schema: an optional tracking name, the
/// platform configuration blocks, and the delivery target fields.
#[derive(Clone, Debug)]
pub struct MessageBodyV2 {
    pub name: Option<String>,
    pub notification: Option<NotificationV2>,
    pub android: Option<AndroidConfig>,
    pub apns: Option<ApnsConfig>,
    pub topic: Option<String>,
    pub condition: Option<String>,
    pub token: Option<String>,
}

/// The immutable wire-shaped message that `finalize` produces: the
/// top-level validate-only flag and the message object.
#[derive(Clone, Debug)]
pub struct MessageV2 {
    pub validate_only: Option<bool>,
    pub message: MessageBodyV2,
}

/// The error returned when custom data cannot be represented as JSON.
#[derive(Debug)]
pub struct SerializationError {
    pub description: String,
}

/// The mathematical value of a notification.
pub ghost struct NotificationView {
    pub title: Option<Seq<char>>,
    pub body: Option<Seq<char>>,
    pub image: Option<Seq<char>>,
}

/// The mathematical value of a builder: every configuration option it has
/// collected so far.
pub ghost struct BuilderView {
    pub api_key: Seq<char>,
    pub to: Option<Seq<char>>,
    pub token: Option<Seq<char>>,
    pub topic: Option<Seq<char>>,
    pub condition: Option<Seq<char>>,
    pub name: Option<Seq<char>>,
    pub collapse_key: Option<Seq<char>>,
    pub content_available: Option<bool>,
    pub data: Option<Seq<char>>,
    pub delay_while_idle: Option<bool>,
    pub dry_run: Option<bool>,
    pub notification: Option<NotificationView>,
    pub priority: Option<Priority>,
    pub registration_ids: Option<Seq<Seq<char>>>,
    pub restricted_package_name: Option<Seq<char>>,
    pub time_to_live: Option<Seq<char>>,
    pub mutable_content: Option<bool>,
}

/// The mathematical value of an optional notification block.
pub open spec fn notification_view_of(n: NotificationV2) -> NotificationView {
    NotificationView {
        title: n.title.deep_view(),
        body: n.body.deep_view(),
        image: n.image.deep_view(),
    }
}

/// The view of an optional notification block.
pub open spec fn notif_opt_view(o: Option<NotificationV2>) -> Option<NotificationView> {
    match o {
        Option::Some(n) => Option::Some(notification_view_of(n)),
        Option::None => Option::None,
    }
}

/// A builder collecting the configuration of one message.  Each setter
/// records its option; `finalize` then produces the wire-shaped message.
///
/// The legacy options `content_available`, `delay_while_idle`,
/// `mutable_content`, `registration_ids` and the `to` argument of `new`
/// are accepted and recorded, but the current wire shape has no place for
/// them: `finalize` does not emit them (`to` serves as the device token
/// only when no token was set explicitly).
#[derive(Debug)]
pub struct MessageBuilder {
    pub api_key: String,
    pub to: Option<String>,
    pub token: Option<String>,
    pub topic: Option<String>,
    pub condition: Option<String>,
    pub name: Option<String>,
    pub collapse_key: Option<String>,
    pub content_available: Option<bool>,
    /// The text of one JSON document, as `data` stored it.
    pub data: Option<String>,
    pub delay_while_idle: Option<bool>,
    pub dry_run: Option<bool>,
    pub notification: Option<NotificationV2>,
    pub priority: Option<Priority>,
    pub registration_ids: Option<Vec<String>>,
    pub restricted_package_name: Option<String>,
    pub time_to_live: Option<String>,
    pub mutable_content: Option<bool>,
}

impl View for MessageBuilder {
    type V = BuilderView;

    open spec fn view(&self) -> BuilderView {
        BuilderView {
            api_key: self.api_key@,
            to: self.to.deep_view(),
            token: self.token.deep_view(),
            topic: self.topic.deep_view(),
            condition: self.condition.deep_view(),
            name: self.name.deep_view(),
            collapse_key: self.collapse_key.deep_view(),
            content_available: self.content_available,
            data: self.data.deep_view(),
            delay_while_idle: self.delay_while_idle,
            dry_run: self.dry_run,
            notification: notif_opt_view(self.notification),
            priority: self.priority,
            registration_ids: self.registration_ids.deep_view(),
            restricted_package_name: self.restricted_package_name.deep_view(),
            time_to_live: self.time_to_live.deep_view(),
            mutable_content: self.mutable_content,
        }
    }
}

/// The builder with nothing set, carrying only the credential.
pub open spec fn empty_builder(api_key: Seq<char>) -> BuilderView {
    BuilderView {
        api_key: api_key,
        to: Option::None,
        token: Option::None,
        topic: Option::None,
        condition: Option::None,
        name: Option::None,
        collapse_key: Option::None,
        content_available: Option::None,
        data: Option::None,
        delay_while_idle: Option::None,
        dry_run: Option::None,
        notification: Option::None,
        priority: Option::None,
        registration_ids: Option::None,
        restricted_package_name: Option::None,
        time_to_live: Option::None,
        mutable_content: Option::None,
    }
}

/// Clones a list of registration identifiers.
fn clone_ids(ids: &Vec<String>) -> (r: Vec<String>)
    ensures
        r.deep_view() == ids.deep_view(),
{
    let mut converted: Vec<String> = Vec::new();
    let n: usize = ids.len();
    let mut i: usize = 0;
    while i < n
        invariant
            i <= n,
            n == ids.len(),
            converted.len() == i,
            forall|j: int| 0 <= j < i ==> #[trigger] converted@[j]@ == ids@[j]@,
        decreases n - i,
    {
        converted.push(ids[i].clone());
        i = i + 1;
    }
    proof {
        assert forall|j: int| 0 <= j < ids@.len() implies converted.deep_view()[j]
            == ids.deep_view()[j] by {
            assert(converted@[j]@ == ids@[j]@);
        }
        assert(converted.deep_view() =~~= ids.deep_view());
    }
    converted
}

/// Relies on `serde_json::to_string`: returns the JSON text of the value,
/// or an error when the value cannot be represented as JSON; it does not
/// panic.
#[verifier::external_body]
fn encode_data<T: serde::Serialize + ?Sized>(value: &T) -> Result<String, SerializationError> {
    match serde_json::to_string(value) {
        Ok(text) => Ok(text),
        Err(e) => Err(SerializationError { description: e.to_string() }),
    }
}

impl MessageBuilder {
    /// A new builder; `to` names the receiving device.
    pub fn new(api_key: &str, to: &str) -> (r: MessageBuilder)
        ensures
            r@ == (BuilderView { to: Option::Some(to@), ..empty_builder(api_key@) }),
    {
        MessageBuilder {
            api_key: api_key.to_owned(),
            to: Option::Some(to.to_owned()),
            token: Option::None,
            topic: Option::None,
            condition: Option::None,
            name: Option::None,
            collapse_key: Option::None,
            content_available: Option::None,
            data: Option::None,
            delay_while_idle: Option::None,
            dry_run: Option::None,
            notification: Option::None,
            priority: Option::None,
            registration_ids: Option::None,
            restricted_package_name: Option::None,
            time_to_live: Option::None,
            mutable_content: Option::None,
        }
    }

    /// A new builder addressing several devices by registration identifier.
    pub fn new_multi(api_key: &str, ids: &Vec<String>) -> (r: MessageBuilder)
        ensures
            r@ == (BuilderView {
                registration_ids: Option::Some(ids.deep_view()),
                ..empty_builder(api_key@)
            }),
    {
        MessageBuilder {
            api_key: api_key.to_owned(),
            to: Option::None,
            token: Option::None,
            topic: Option::None,
            condition: Option::None,
            name: Option::None,
            collapse_key: Option::None,
            content_available: Option::None,
            data: Option::None,
            delay_while_idle: Option::None,
            dry_run: Option::None,
            notification: Option::None,
            priority: Option::None,
            registration_ids: Option::Some(clone_ids(ids)),
            restricted_package_name: Option::None,
            time_to_live: Option::None,
            mutable_content: Option::None,
        }
    }

    /// Replaces the recorded registration identifiers.
    pub fn registration_ids(&mut self, ids: &Vec<String>)
        ensures
            final(self)@ == (BuilderView {
                registration_ids: Option::Some(ids.deep_view()),
                ..old(self)@
            }),
    {
        self.registration_ids = Option::Some(clone_ids(ids));
    }

    /// Sets the identifier of a group of messages that can be collapsed.
    pub fn collapse_key(&mut self, collapse_key: &str)
        ensures
            final(self)@ == (BuilderView {
                collapse_key: Option::Some(collapse_key@),
                ..old(self)@
            }),
    {
        self.collapse_key = Option::Some(collapse_key.to_owned());
    }

    /// Sets the delivery priority: normal or high.
    pub fn priority(&mut self, priority: Priority)
        ensures
            final(self)@ == (BuilderView { priority: Option::Some(priority), ..old(self)@ }),
    {
        self.priority = Option::Some(priority);
    }

    /// Records the legacy `content-available` flag.
    pub fn content_available(&mut self, content_available: bool)
        ensures
            final(self)@ == (BuilderView {
                content_available: Option::Some(content_available),
                ..old(self)@
            }),
    {
        self.content_available = Option::Some(content_available);
    }

    /// Records the legacy delay-while-idle flag.
    pub fn delay_while_idle(&mut self, delay_while_idle: bool)
        ensures
            final(self)@ == (BuilderView {
                delay_while_idle: Option::Some(delay_while_idle),
                ..old(self)@
            }),
    {
        self.delay_while_idle = Option::Some(delay_while_idle);
    }

    /// Sets how long the message is kept for an offline device.
    pub fn time_to_live(&mut self, time_to_live: &str)
        ensures
            final(self)@ == (BuilderView {
                time_to_live: Option::Some(time_to_live@),
                ..old(self)@
            }),
    {
        self.time_to_live = Option::Some(time_to_live.to_owned());
    }

    /// Sets the package name the registration tokens must match.
    pub fn restricted_package_name(&mut self, restricted_package_name: &str)
        ensures
            final(self)@ == (BuilderView {
                restricted_package_name: Option::Some(restricted_package_name@),
                ..old(self)@
            }),
    {
        self.restricted_package_name = Option::Some(restricted_package_name.to_owned());
    }

    /// Requests validation-only semantics: the gateway checks the message
    /// without delivering it.
    pub fn dry_run(&mut self, dry_run: bool)
        ensures
            final(self)@ == (BuilderView { dry_run: Option::Some(dry_run), ..old(self)@ }),
    {
        self.dry_run = Option::Some(dry_run);
    }

    /// Attaches custom key/value data.  Anything serde can serialize to
    /// JSON is accepted; a value that cannot be represented as JSON is
    /// rejected here, at configuration time, and the builder is left
    /// unchanged.
    pub fn data<T: serde::Serialize + ?Sized>(&mut self, data: &T) -> (r: Result<
        (),
        SerializationError,
    >)
        ensures
            r is Ok ==> final(self)@ == (BuilderView { data: final(self)@.data, ..old(self)@ })
                && final(self)@.data is Some,
            r is Err ==> final(self)@ == old(self)@,
    {
        match encode_data(data) {
            Ok(text) => {
                self.data = Option::Some(text);
                Ok(())
            },
            Err(e) => Err(e),
        }
    }

    /// Sets the human-visible notification block: `finalize` carries it
    /// into the wire message.
    pub fn notification(&mut self, notification: NotificationV2)
        ensures
            final(self)@ == (BuilderView {
                notification: Option::Some(NotificationView {
                    title: notification.title.deep_view(),
                    body: notification.body.deep_view(),
                    image: notification.image.deep_view(),
                }),
                ..old(self)@
            }),
    {
        self.notification = Option::Some(notification);
    }

    /// Records the legacy iOS mutable-content flag.
    pub fn mutable_content(&mut self, mutable_content: bool)
        ensures
            final(self)@ == (BuilderView {
                mutable_content: Option::Some(mutable_content),
                ..old(self)@
            }),
    {
        self.mutable_content = Option::Some(mutable_content);
    }

    /// Sets the topic delivery target.
    pub fn topic(&mut self, topic: &str)
        ensures
            final(self)@ == (BuilderView { topic: Option::Some(topic@), ..old(self)@ }),
    {
        self.topic = Option::Some(topic.to_owned());
    }

    /// Sets the device token delivery target.
    pub fn token(&mut self, token: &str)
        ensures
            final(self)@ == (BuilderView { token: Option::Some(token@), ..old(self)@ }),
    {
        self.token = Option::Some(token.to_owned());
    }

    /// Sets the condition expression delivery target.
    pub fn condition(&mut self, condition: &str)
        ensures
            final(self)@ == (BuilderView { condition: Option::Some(condition@), ..old(self)@ }),
    {
        self.condition = Option::Some(condition.to_owned());
    }

    /// The single state transition from builder to immutable wire-shaped
    /// message.  Set fields keep their values; unset fields stay absent.
    /// The device token of the wire message is the explicitly set token,
    /// or failing that the `to` argument of `new`; the dry-run option
    /// becomes the top-level validate-only flag.  The platform block is
    /// deliberately always present, with direct boot delivery disabled:
    /// it is part of the message's fixed frame, as the gateway schema has
    /// it, and the omission rule applies to the options within it.
    pub fn finalize(self) -> (r: MessageV2)
        ensures
            is_finalized(self@, r),
    {
        let token = match self.token {
            Option::Some(t) => Option::Some(t),
            Option::None => self.to,
        };
        MessageV2 {
            validate_only: self.dry_run,
            message: MessageBodyV2 {
                name: self.name,
                notification: self.notification,
                android: Option::Some(AndroidConfig {
                    collapse_key: self.collapse_key,
                    priority: self.priority,
                    ttl: self.time_to_live,
                    restricted_package_name: self.restricted_package_name,
                    data: self.data,
                    direct_boot_ok: Option::Some(false),
                }),
                apns: Option::None,
                topic: self.topic,
                condition: self.condition,
                token: token,
            },
        }
    }
}

/// How the wire-shaped message that `finalize` produces relates to the
/// builder's configuration: set options keep their values, unset options
/// stay absent, the explicitly set token wins over the `to` of `new`, the
/// dry-run option becomes the validate-only flag, and the platform block
/// is always present with direct boot delivery disabled.
pub open spec fn is_finalized(b: BuilderView, m: MessageV2) -> bool {
    &&& m.validate_only == b.dry_run
    &&& m.message.name.deep_view() == b.name
    &&& notif_opt_view(m.message.notification) == b.notification
    &&& m.message.topic.deep_view() == b.topic
    &&& m.message.condition.deep_view() == b.condition
    &&& m.message.token.deep_view() == (if b.token is Some {
        b.token
    } else {
        b.to
    })
    &&& m.message.apns is None
    &&& (m.message.android matches Some(a) && a.priority == b.priority
        && a.collapse_key.deep_view() == b.collapse_key && a.data.deep_view() == b.data
        && a.ttl.deep_view() == b.time_to_live
        && a.restricted_package_name.deep_view() == b.restricted_package_name
        && a.direct_boot_ok == Some(false))
}

// ---- The wire JSON text of a message ----

/// The schema text of a priority value.
pub open spec fn priority_text(p: Priority) -> Seq<char> {
    match p {
        Priority::Normal => "normal"@,
        Priority::High => "high"@,
    }
}

/// The serialized form of an optional string field: a JSON string when set.
pub open spec fn str_field(v: Option<String>) -> Option<Seq<char>> {
    match v {
        Option::Some(s) => Option::Some(json_str(s@)),
        Option::None => Option::None,
    }
}

/// The serialized form of an optional field that already holds JSON text:
/// the text itself, spliced verbatim.
pub open spec fn raw_field(v: Option<String>) -> Option<Seq<char>> {
    match v {
        Option::Some(s) => Option::Some(s@),
        Option::None => Option::None,
    }
}

/// The serialized form of an optional boolean field.
pub open spec fn bool_field(v: Option<bool>) -> Option<Seq<char>> {
    match v {
        Option::Some(b) => Option::Some(json_bool(b)),
        Option::None => Option::None,
    }
}

/// The serialized form of an optional priority field.
pub open spec fn pri_field(v: Option<Priority>) -> Option<Seq<char>> {
    match v {
        Option::Some(p) => Option::Some(json_str(priority_text(p))),
        Option::None => Option::None,
    }
}

/// The members of the platform configuration object, in schema order;
/// unset fields contribute nothing.
pub open spec fn android_fields(a: AndroidConfig) -> Seq<(Seq<char>, Seq<char>)> {
    opt_field("collapse_key"@, str_field(a.collapse_key))
        + opt_field("priority"@, pri_field(a.priority))
        + opt_field("ttl"@, str_field(a.ttl))
        + opt_field("restricted_package_name"@, str_field(a.restricted_package_name))
        + opt_field("data"@, raw_field(a.data))
        + opt_field("direct_boot_ok"@, bool_field(a.direct_boot_ok))
}

/// The JSON text of the platform configuration object.
pub open spec fn android_text(a: AndroidConfig) -> Seq<char> {
    obj_text(android_fields(a))
}

/// The members of the iOS options object.
pub open spec fn apns_options_fields(o: ApnsFcmOptions) -> Seq<(Seq<char>, Seq<char>)> {
    opt_field("analytics_label"@, str_field(o.analytics_label))
        + opt_field("image"@, str_field(o.image))
}

/// The members of the iOS configuration object.
pub open spec fn apns_fields(c: ApnsConfig) -> Seq<(Seq<char>, Seq<char>)> {
    opt_field("headers"@, raw_field(c.headers))
        + opt_field("payload"@, raw_field(c.payload))
        + opt_field("fcm_options"@, match c.fcm_options {
            Option::Some(o) => Option::Some(obj_text(apns_options_fields(o))),
            Option::None => Option::None,
        })
}

/// The JSON text of the iOS configuration object.
pub open spec fn apns_text(c: ApnsConfig) -> Seq<char> {
    obj_text(apns_fields(c))
}

/// The members of the notification block.
pub open spec fn notification_fields(n: NotificationV2) -> Seq<(Seq<char>, Seq<char>)> {
    opt_field("title"@, str_field(n.title))
        + opt_field("body"@, str_field(n.body))
        + opt_field("image"@, str_field(n.image))
}

/// The JSON text of the notification block.
pub open spec fn notification_text(n: NotificationV2) -> Seq<char> {
    obj_text(notification_fields(n))
}

/// The members of the message object, in schema order.
pub open spec fn body_fields(b: MessageBodyV2) -> Seq<(Seq<char>, Seq<char>)> {
    opt_field("name"@, str_field(b.name))
        + opt_field("notification"@, match b.notification {
            Option::Some(n) => Option::Some(notification_text(n)),
            Option::None => Option::None,
        })
        + opt_field("android"@, match b.android {
            Option::Some(a) => Option::Some(android_text(a)),
            Option::None => Option::None,
        })
        + opt_field("apns"@, match b.apns {
            Option::Some(c) => Option::Some(apns_text(c)),
            Option::None => Option::None,
        })
        + opt_field("topic"@, str_field(b.topic))
        + opt_field("condition"@, str_field(b.condition))
        + opt_field("token"@, str_field(b.token))
}

/// The JSON text of the message object.
pub open spec fn body_text(b: MessageBodyV2) -> Seq<char> {
    obj_text(body_fields(b))
}

/// The members of the top-level request object: the optional validate-only
/// flag and the message object, which is always present.
pub open spec fn wire_fields(m: MessageV2) -> Seq<(Seq<char>, Seq<char>)> {
    opt_field("validate_only"@, bool_field(m.validate_only))
        + opt_field("message"@, Option::Some(body_text(m.message)))
}

/// The complete wire JSON text of a message.
pub open spec fn wire_text(m: MessageV2) -> Seq<char> {
    obj_text(wire_fields(m))
}

/// Renders an optional string field as its JSON string text.
fn render_str(v: &Option<String>) -> (r: Option<String>)
    ensures
        r.deep_view() == str_field(*v),
{
    match v {
        Option::Some(s) => Option::Some(json_string_of(s.as_str())),
        Option::None => Option::None,
    }
}

/// Renders an optional field that holds JSON text already.
fn render_raw(v: &Option<String>) -> (r: Option<String>)
    ensures
        r.deep_view() == raw_field(*v),
{
    match v {
        Option::Some(s) => Option::Some(s.clone()),
        Option::None => Option::None,
    }
}

/// Renders an optional boolean field.
fn render_bool(v: &Option<bool>) -> (r: Option<String>)
    ensures
        r.deep_view() == bool_field(*v),
{
    match v {
        Option::Some(b) => Option::Some(json_bool_of(*b)),
        Option::None => Option::None,
    }
}

/// Renders an optional priority field.
fn render_pri(v: &Option<Priority>) -> (r: Option<String>)
    ensures
        r.deep_view() == pri_field(*v),
{
    match v {
        Option::Some(Priority::Normal) => Option::Some(json_string_of("normal")),
        Option::Some(Priority::High) => Option::Some(json_string_of("high")),
        Option::None => Option::None,
    }
}

impl AndroidConfig {
    /// The JSON text of this configuration block.
    pub fn to_json(&self) -> (r: String)
        ensures
            r@ == android_text(*self),
    {
        let mut fields: Vec<(String, String)> = Vec::new();
        push_opt(&mut fields, "collapse_key", render_str(&self.collapse_key));
        push_opt(&mut fields, "priority", render_pri(&self.priority));
        push_opt(&mut fields, "ttl", render_str(&self.ttl));
        push_opt(&mut fields, "restricted_package_name", render_str(&self.restricted_package_name));
        push_opt(&mut fields, "data", render_raw(&self.data));
        push_opt(&mut fields, "direct_boot_ok", render_bool(&self.direct_boot_ok));
        proof {
            assert(fields_view(fields@) =~= android_fields(*self));
        }
        write_obj(&fields)
    }
}

impl NotificationV2 {
    /// The JSON text of this notification block.
    pub fn to_json(&self) -> (r: String)
        ensures
            r@ == notification_text(*self),
    {
        let mut fields: Vec<(String, String)> = Vec::new();
        push_opt(&mut fields, "title", render_str(&self.title));
        push_opt(&mut fields, "body", render_str(&self.body));
        push_opt(&mut fields, "image", render_str(&self.image));
        proof {
            assert(fields_view(fields@) =~= notification_fields(*self));
        }
        write_obj(&fields)
    }
}

impl ApnsFcmOptions {
    /// The JSON text of this options block.
    pub fn to_json(&self) -> (r: String)
        ensures
            r@ == obj_text(apns_options_fields(*self)),
    {
        let mut fields: Vec<(String, String)> = Vec::new();
        push_opt(&mut fields, "analytics_label", render_str(&self.analytics_label));
        push_opt(&mut fields, "image", render_str(&self.image));
        proof {
            assert(fields_view(fields@) =~= apns_options_fields(*self));
        }
        write_obj(&fields)
    }
}

impl ApnsConfig {
    /// The JSON text of this configuration block.
    pub fn to_json(&self) -> (r: String)
        ensures
            r@ == apns_text(*self),
    {
        let mut fields: Vec<(String, String)> = Vec::new();
        push_opt(&mut fields, "headers", render_raw(&self.headers));
        push_opt(&mut fields, "payload", render_raw(&self.payload));
        let fo = match &self.fcm_options {
            Option::Some(o) => Option::Some(o.to_json()),
            Option::None => Option::None,
        };
        push_opt(&mut fields, "fcm_options", fo);
        proof {
            assert(fields_view(fields@) =~= apns_fields(*self));
        }
        write_obj(&fields)
    }
}

impl MessageBodyV2 {
    /// The JSON text of the message object.
    pub fn to_json(&self) -> (r: String)
        ensures
            r@ == body_text(*self),
    {
        let mut fields: Vec<(String, String)> = Vec::new();
        push_opt(&mut fields, "name", render_str(&self.name));
        let notification = match &self.notification {
            Option::Some(n) => Option::Some(n.to_json()),
            Option::None => Option::None,
        };
        push_opt(&mut fields, "notification", notification);
        let android = match &self.android {
            Option::Some(a) => Option::Some(a.to_json()),
            Option::None => Option::None,
        };
        push_opt(&mut fields, "android", android);
        let apns = match &self.apns {
            Option::Some(c) => Option::Some(c.to_json()),
            Option::None => Option::None,
        };
        push_opt(&mut fields, "apns", apns);
        push_opt(&mut fields, "topic", render_str(&self.topic));
        push_opt(&mut fields, "condition", render_str(&self.condition));
        push_opt(&mut fields, "token", render_str(&self.token));
        proof {
            assert(fields_view(fields@) =~= body_fields(*self));
        }
        write_obj(&fields)
    }
}

impl MessageV2 {
    /// The complete wire JSON text of this message: what `send` posts.
    pub fn to_json(&self) -> (r: String)
        ensures
            r@ == wire_text(*self),
    {
        let mut fields: Vec<(String, String)> = Vec::new();
        push_opt(&mut fields, "validate_only", render_bool(&self.validate_only));
        push_opt(&mut fields, "message", Option::Some(self.message.to_json()));
        proof {
            assert(fields_view(fields@) =~= wire_fields(*self));
        }
        write_obj(&fields)
    }
}

// ---- Exact field lookup: set fields appear under their schema key, ----
// ---- unset fields are omitted ----

/// Looking a key up in the member list of one optional field.
proof fn lemma_lookup_opt(key: Seq<char>, v: Option<Seq<char>>, k: Seq<char>)
    ensures
        lookup(opt_field(key, v), k) == (if k == key {
            v
        } else {
            Option::<Seq<char>>::None
        }),
{
    assert(lookup(Seq::<(Seq<char>, Seq<char>)>::empty(), k) is None);
    match v {
        Option::None => {},
        Option::Some(t) => {
            assert(opt_field(key, v).skip(1) =~= Seq::<(Seq<char>, Seq<char>)>::empty());
        },
    }
}

/// Looking a key up after appending one optional field's members.
proof fn lemma_lookup_opt_concat(
    s: Seq<(Seq<char>, Seq<char>)>,
    key: Seq<char>,
    v: Option<Seq<char>>,
    k: Seq<char>,
)
    ensures
        lookup(s + opt_field(key, v), k) == (if lookup(s, k) is Some {
            lookup(s, k)
        } else if k == key {
            v
        } else {
            Option::<Seq<char>>::None
        }),
{
    crate::ser::lemma_lookup_append(s, opt_field(key, v), k);
    lemma_lookup_opt(key, v, k);
}

/// In the serialized platform configuration object every set field stands
/// under its exact schema key with its own serialization, every unset
/// field is omitted, and no other key occurs.
pub proof fn lemma_android_lookup(a: AndroidConfig, k: Seq<char>)
    ensures
        lookup(android_fields(a), k) == (if k == "collapse_key"@ {
            str_field(a.collapse_key)
        } else if k == "priority"@ {
            pri_field(a.priority)
        } else if k == "ttl"@ {
            str_field(a.ttl)
        } else if k == "restricted_package_name"@ {
            str_field(a.restricted_package_name)
        } else if k == "data"@ {
            raw_field(a.data)
        } else if k == "direct_boot_ok"@ {
            bool_field(a.direct_boot_ok)
        } else {
            Option::<Seq<char>>::None
        }),
{
    reveal_strlit("collapse_key");
    reveal_strlit("priority");
    reveal_strlit("ttl");
    reveal_strlit("restricted_package_name");
    reveal_strlit("data");
    reveal_strlit("direct_boot_ok");
    assert("collapse_key"@.len() == 12);
    assert("priority"@.len() == 8);
    assert("ttl"@.len() == 3);
    assert("restricted_package_name"@.len() == 23);
    assert("data"@.len() == 4);
    assert("direct_boot_ok"@.len() == 14);
    assert("collapse_key"@ != "priority"@);
    assert("collapse_key"@ != "ttl"@);
    assert("collapse_key"@ != "restricted_package_name"@);
    assert("collapse_key"@ != "data"@);
    assert("collapse_key"@ != "direct_boot_ok"@);
    assert("priority"@ != "ttl"@);
    assert("priority"@ != "restricted_package_name"@);
    assert("priority"@ != "data"@);
    assert("priority"@ != "direct_boot_ok"@);
    assert("ttl"@ != "restricted_package_name"@);
    assert("ttl"@ != "data"@);
    assert("ttl"@ != "direct_boot_ok"@);
    assert("restricted_package_name"@ != "data"@);
    assert("restricted_package_name"@ != "direct_boot_ok"@);
    assert("data"@ != "direct_boot_ok"@);
    let f1 = opt_field("collapse_key"@, str_field(a.collapse_key));
    let f2 = opt_field("priority"@, pri_field(a.priority));
    let f3 = opt_field("ttl"@, str_field(a.ttl));
    let f4 = opt_field("restricted_package_name"@, str_field(a.restricted_package_name));
    let f5 = opt_field("data"@, raw_field(a.data));
    lemma_lookup_opt("collapse_key"@, str_field(a.collapse_key), k);
    lemma_lookup_opt_concat(f1, "priority"@, pri_field(a.priority), k);
    lemma_lookup_opt_concat(f1 + f2, "ttl"@, str_field(a.ttl), k);
    lemma_lookup_opt_concat(f1 + f2 + f3, "restricted_package_name"@,
        str_field(a.restricted_package_name), k);
    lemma_lookup_opt_concat(f1 + f2 + f3 + f4, "data"@, raw_field(a.data), k);
    lemma_lookup_opt_concat(f1 + f2 + f3 + f4 + f5, "direct_boot_ok"@,
        bool_field(a.direct_boot_ok), k);
}

/// The same exactness for the iOS options object.
pub proof fn lemma_apns_options_lookup(o: ApnsFcmOptions, k: Seq<char>)
    ensures
        lookup(apns_options_fields(o), k) == (if k == "analytics_label"@ {
            str_field(o.analytics_label)
        } else if k == "image"@ {
            str_field(o.image)
        } else {
            Option::<Seq<char>>::None
        }),
{
    reveal_strlit("analytics_label");
    reveal_strlit("image");
    assert("analytics_label"@.len() == 15);
    assert("image"@.len() == 5);
    assert("analytics_label"@ != "image"@);
    let f1 = opt_field("analytics_label"@, str_field(o.analytics_label));
    lemma_lookup_opt("analytics_label"@, str_field(o.analytics_label), k);
    lemma_lookup_opt_concat(f1, "image"@, str_field(o.image), k);
}

/// The same exactness for the iOS configuration object.
pub proof fn lemma_apns_lookup(c: ApnsConfig, k: Seq<char>)
    ensures
        lookup(apns_fields(c), k) == (if k == "headers"@ {
            raw_field(c.headers)
        } else if k == "payload"@ {
            raw_field(c.payload)
        } else if k == "fcm_options"@ {
            match c.fcm_options {
                Option::Some(o) => Option::Some(obj_text(apns_options_fields(o))),
                Option::None => Option::None,
            }
        } else {
            Option::<Seq<char>>::None
        }),
{
    reveal_strlit("headers");
    reveal_strlit("payload");
    reveal_strlit("fcm_options");
    assert("headers"@.len() == 7);
    assert("payload"@.len() == 7);
    assert("fcm_options"@.len() == 11);
    assert("headers"@[0] == 'h');
    assert("payload"@[0] == 'p');
    assert("headers"@ != "payload"@);
    assert("headers"@ != "fcm_options"@);
    assert("payload"@ != "fcm_options"@);
    let fo = match c.fcm_options {
        Option::Some(o) => Option::Some(obj_text(apns_options_fields(o))),
        Option::None => Option::<Seq<char>>::None,
    };
    let f1 = opt_field("headers"@, raw_field(c.headers));
    let f2 = opt_field("payload"@, raw_field(c.payload));
    lemma_lookup_opt("headers"@, raw_field(c.headers), k);
    lemma_lookup_opt_concat(f1, "payload"@, raw_field(c.payload), k);
    lemma_lookup_opt_concat(f1 + f2, "fcm_options"@, fo, k);
}

/// The same exactness for the notification block.
pub proof fn lemma_notification_lookup(n: NotificationV2, k: Seq<char>)
    ensures
        lookup(notification_fields(n), k) == (if k == "title"@ {
            str_field(n.title)
        } else if k == "body"@ {
            str_field(n.body)
        } else if k == "image"@ {
            str_field(n.image)
        } else {
            Option::<Seq<char>>::None
        }),
{
    reveal_strlit("title");
    reveal_strlit("body");
    reveal_strlit("image");
    assert("title"@.len() == 5);
    assert("body"@.len() == 4);
    assert("image"@.len() == 5);
    assert("title"@[0] == 't');
    assert("image"@[0] == 'i');
    assert("title"@ != "body"@);
    assert("title"@ != "image"@);
    assert("body"@ != "image"@);
    let f1 = opt_field("title"@, str_field(n.title));
    let f2 = opt_field("body"@, str_field(n.body));
    lemma_lookup_opt("title"@, str_field(n.title), k);
    lemma_lookup_opt_concat(f1, "body"@, str_field(n.body), k);
    lemma_lookup_opt_concat(f1 + f2, "image"@, str_field(n.image), k);
}

/// In the serialized message object every set field stands under its
/// exact schema key with its own serialization (nested blocks with their
/// own object text), every unset field is omitted, and no other key
/// occurs.
pub proof fn lemma_body_lookup(b: MessageBodyV2, k: Seq<char>)
    ensures
        lookup(body_fields(b), k) == (if k == "name"@ {
            str_field(b.name)
        } else if k == "notification"@ {
            match b.notification {
                Option::Some(n) => Option::Some(notification_text(n)),
                Option::None => Option::None,
            }
        } else if k == "android"@ {
            match b.android {
                Option::Some(a) => Option::Some(android_text(a)),
                Option::None => Option::None,
            }
        } else if k == "apns"@ {
            match b.apns {
                Option::Some(c) => Option::Some(apns_text(c)),
                Option::None => Option::None,
            }
        } else if k == "topic"@ {
            str_field(b.topic)
        } else if k == "condition"@ {
            str_field(b.condition)
        } else if k == "token"@ {
            str_field(b.token)
        } else {
            Option::<Seq<char>>::None
        }),
{
    reveal_strlit("name");
    reveal_strlit("notification");
    reveal_strlit("android");
    reveal_strlit("apns");
    reveal_strlit("topic");
    reveal_strlit("condition");
    reveal_strlit("token");
    assert("notification"@.len() == 12);
    assert("name"@ != "notification"@);
    assert("notification"@ != "android"@);
    assert("notification"@ != "apns"@);
    assert("notification"@ != "topic"@);
    assert("notification"@ != "condition"@);
    assert("notification"@ != "token"@);
    assert("name"@.len() == 4);
    assert("android"@.len() == 7);
    assert("apns"@.len() == 4);
    assert("topic"@.len() == 5);
    assert("condition"@.len() == 9);
    assert("token"@.len() == 5);
    assert("name"@[0] == 'n');
    assert("apns"@[0] == 'a');
    assert("topic"@[2] == 'p');
    assert("token"@[2] == 'k');
    assert("name"@ != "android"@);
    assert("name"@ != "apns"@);
    assert("name"@ != "topic"@);
    assert("name"@ != "condition"@);
    assert("name"@ != "token"@);
    assert("android"@ != "apns"@);
    assert("android"@ != "topic"@);
    assert("android"@ != "condition"@);
    assert("android"@ != "token"@);
    assert("apns"@ != "topic"@);
    assert("apns"@ != "condition"@);
    assert("apns"@ != "token"@);
    assert("topic"@ != "condition"@);
    assert("topic"@ != "token"@);
    assert("condition"@ != "token"@);
    let av = match b.android {
        Option::Some(a) => Option::Some(android_text(a)),
        Option::None => Option::<Seq<char>>::None,
    };
    let cv = match b.apns {
        Option::Some(c) => Option::Some(apns_text(c)),
        Option::None => Option::<Seq<char>>::None,
    };
    let nv = match b.notification {
        Option::Some(n) => Option::Some(notification_text(n)),
        Option::None => Option::<Seq<char>>::None,
    };
    let f1 = opt_field("name"@, str_field(b.name));
    let f2 = opt_field("notification"@, nv);
    let f3 = opt_field("android"@, av);
    let f4 = opt_field("apns"@, cv);
    let f5 = opt_field("topic"@, str_field(b.topic));
    let f6 = opt_field("condition"@, str_field(b.condition));
    lemma_lookup_opt("name"@, str_field(b.name), k);
    lemma_lookup_opt_concat(f1, "notification"@, nv, k);
    lemma_lookup_opt_concat(f1 + f2, "android"@, av, k);
    lemma_lookup_opt_concat(f1 + f2 + f3, "apns"@, cv, k);
    lemma_lookup_opt_concat(f1 + f2 + f3 + f4, "topic"@, str_field(b.topic), k);
    lemma_lookup_opt_concat(f1 + f2 + f3 + f4 + f5, "condition"@, str_field(b.condition), k);
    lemma_lookup_opt_concat(f1 + f2 + f3 + f4 + f5 + f6, "token"@, str_field(b.token), k);
}

/// In the top-level request object the validate-only flag appears exactly
/// when set, and the message object is always present.
pub proof fn lemma_wire_lookup(m: MessageV2, k: Seq<char>)
    ensures
        lookup(wire_fields(m), k) == (if k == "validate_only"@ {
            bool_field(m.validate_only)
        } else if k == "message"@ {
            Option::Some(body_text(m.message))
        } else {
            Option::<Seq<char>>::None
        }),
{
    reveal_strlit("validate_only");
    reveal_strlit("message");
    assert("validate_only"@.len() == 13);
    assert("message"@.len() == 7);
    assert("validate_only"@ != "message"@);
    let f1 = opt_field("validate_only"@, bool_field(m.validate_only));
    lemma_lookup_opt("validate_only"@, bool_field(m.validate_only), k);
    lemma_lookup_opt_concat(f1, "message"@, Option::Some(body_text(m.message)), k);
}

/// The serialization of an optional string option: its JSON string text
/// when set.
pub open spec fn opt_json_str(v: Option<Seq<char>>) -> Option<Seq<char>> {
    match v {
        Option::Some(s) => Option::Some(json_str(s)),
        Option::None => Option::None,
    }
}

/// The serialization of an optional boolean option.
pub open spec fn opt_json_bool(v: Option<bool>) -> Option<Seq<char>> {
    match v {
        Option::Some(b) => Option::Some(json_bool(b)),
        Option::None => Option::None,
    }
}

/// For every builder configuration, the wire text of the finalized
/// message includes each set option under its exact schema key, with its
/// own serialization (a set notification as its own block with the given
/// title, body and image), and omits every unset option entirely; the
/// legacy options never reach the wire, and the target token falls back
/// to the `to` of `new` only when no token was set.
pub proof fn lemma_finalize_exact(b: BuilderView, m: MessageV2)
    requires
        is_finalized(b, m),
    ensures
        lookup(wire_fields(m), "validate_only"@) == opt_json_bool(b.dry_run),
        lookup(wire_fields(m), "message"@) == Option::Some(body_text(m.message)),
        lookup(body_fields(m.message), "name"@) == opt_json_str(b.name),
        lookup(body_fields(m.message), "topic"@) == opt_json_str(b.topic),
        lookup(body_fields(m.message), "condition"@) == opt_json_str(b.condition),
        lookup(body_fields(m.message), "token"@) == opt_json_str(
            if b.token is Some {
                b.token
            } else {
                b.to
            },
        ),
        lookup(body_fields(m.message), "apns"@) is None,
        lookup(body_fields(m.message), "android"@) == Option::Some(
            android_text(m.message.android->Some_0),
        ),
        lookup(android_fields(m.message.android->Some_0), "collapse_key"@) == opt_json_str(
            b.collapse_key,
        ),
        lookup(android_fields(m.message.android->Some_0), "priority"@) == (match b.priority {
            Option::Some(p) => Option::Some(json_str(priority_text(p))),
            Option::None => Option::None,
        }),
        lookup(android_fields(m.message.android->Some_0), "ttl"@) == opt_json_str(b.time_to_live),
        lookup(android_fields(m.message.android->Some_0), "restricted_package_name"@)
            == opt_json_str(b.restricted_package_name),
        lookup(android_fields(m.message.android->Some_0), "data"@) == b.data,
        lookup(android_fields(m.message.android->Some_0), "direct_boot_ok"@) == Option::Some(
            json_bool(false),
        ),
        lookup(body_fields(m.message), "notification"@) == (match m.message.notification {
            Option::Some(n) => Option::Some(notification_text(n)),
            Option::None => Option::None,
        }),
        (m.message.notification is Some <==> b.notification is Some),
        m.message.notification matches Some(n) ==> (
            notification_view_of(n) == b.notification->Some_0
            && lookup(notification_fields(n), "title"@) == opt_json_str(b.notification->Some_0.title)
            && lookup(notification_fields(n), "body"@) == opt_json_str(b.notification->Some_0.body)
            && lookup(notification_fields(n), "image"@) == opt_json_str(b.notification->Some_0.image)
        ),
        lookup(body_fields(m.message), "registration_ids"@) is None,
        lookup(body_fields(m.message), "content_available"@) is None,
        lookup(body_fields(m.message), "delay_while_idle"@) is None,
        lookup(body_fields(m.message), "mutable_content"@) is None,
        lookup(body_fields(m.message), "to"@) is None,
{
    let a = m.message.android->Some_0;
    lemma_wire_lookup(m, "validate_only"@);
    lemma_wire_lookup(m, "message"@);
    lemma_body_lookup(m.message, "name"@);
    lemma_body_lookup(m.message, "topic"@);
    lemma_body_lookup(m.message, "condition"@);
    lemma_body_lookup(m.message, "token"@);
    lemma_body_lookup(m.message, "apns"@);
    lemma_body_lookup(m.message, "android"@);
    lemma_android_lookup(a, "collapse_key"@);
    lemma_android_lookup(a, "priority"@);
    lemma_android_lookup(a, "ttl"@);
    lemma_android_lookup(a, "restricted_package_name"@);
    lemma_android_lookup(a, "data"@);
    lemma_android_lookup(a, "direct_boot_ok"@);
    lemma_body_lookup(m.message, "registration_ids"@);
    lemma_body_lookup(m.message, "content_available"@);
    lemma_body_lookup(m.message, "delay_while_idle"@);
    lemma_body_lookup(m.message, "mutable_content"@);
    lemma_body_lookup(m.message, "notification"@);
    lemma_body_lookup(m.message, "to"@);
    match m.message.notification {
        Option::Some(n) => {
            lemma_notification_lookup(n, "title"@);
            lemma_notification_lookup(n, "body"@);
            lemma_notification_lookup(n, "image"@);
        },
        Option::None => {},
    }
    reveal_strlit("validate_only");
    reveal_strlit("message");
    reveal_strlit("name");
    reveal_strlit("android");
    reveal_strlit("apns");
    reveal_strlit("topic");
    reveal_strlit("condition");
    reveal_strlit("token");
    reveal_strlit("collapse_key");
    reveal_strlit("priority");
    reveal_strlit("ttl");
    reveal_strlit("restricted_package_name");
    reveal_strlit("data");
    reveal_strlit("direct_boot_ok");
    reveal_strlit("registration_ids");
    reveal_strlit("content_available");
    reveal_strlit("delay_while_idle");
    reveal_strlit("mutable_content");
    reveal_strlit("notification");
    reveal_strlit("to");
    reveal_strlit("title");
    reveal_strlit("body");
    reveal_strlit("image");
    assert("title"@.len() == 5);
    assert("body"@.len() == 4);
    assert("image"@.len() == 5);
    assert("title"@[0] == 't');
    assert("image"@[0] == 'i');
    assert("title"@ != "body"@);
    assert("title"@ != "image"@);
    assert("body"@ != "image"@);
    assert("notification"@.len() == 12);
    assert("validate_only"@.len() == 13);
    assert("message"@.len() == 7);
    assert("name"@.len() == 4);
    assert("android"@.len() == 7);
    assert("apns"@.len() == 4);
    assert("topic"@.len() == 5);
    assert("condition"@.len() == 9);
    assert("token"@.len() == 5);
    assert("collapse_key"@.len() == 12);
    assert("priority"@.len() == 8);
    assert("ttl"@.len() == 3);
    assert("restricted_package_name"@.len() == 23);
    assert("data"@.len() == 4);
    assert("direct_boot_ok"@.len() == 14);
    assert("registration_ids"@.len() == 16);
    assert("content_available"@.len() == 17);
    assert("delay_while_idle"@.len() == 16);
    assert("mutable_content"@.len() == 15);
    assert("notification"@.len() == 12);
    assert("to"@.len() == 2);
    assert("name"@[0] == 'n');
    assert("apns"@[0] == 'a');
    assert("data"@[0] == 'd');
    assert("topic"@[2] == 'p');
    assert("token"@[2] == 'k');
    assert("message"@[0] == 'm');
    assert("android"@[0] == 'a');
}

} // verus!
