//! The options that a relying party hands to the client to create a
//! credential, and their wire form.
//!
//! Every record has a view, its mathematical content, and the view has a
//! `wire` form, the JSON document that stands for it; `to_json` builds
//! exactly that document. Optional fields that are unset have no member in
//! the document; none is ever written as `null`.

use crate::helper::{encodes_bytes_of_length, generate_random, DEFAULT_USER_HANDLE_LENGTH};
use crate::json::{
    find_member, find_member_from, items_model, lemma_find_in_joined, lemma_find_optional_member,
    optional_member, JsonModel, JsonValue, ObjectBuilder,
};
use vstd::prelude::*;

verus! {

/// Timeout, in milliseconds, that the relying party assumes where the options
/// state none.
pub const DEFAULT_TIMEOUT_MS: usize = 60000;

/// The credential type of every public-key credential.
pub open spec fn public_key_type() -> Seq<char> {
    "public-key"@
}

/// The content of an optional text.
pub open spec fn optional_text(text: Option<String>) -> Option<Seq<char>> {
    match text {
        Some(text) => Some(text@),
        None => None,
    }
}

/// The content of an optional borrowed text.
pub open spec fn optional_str(text: Option<&str>) -> Option<Seq<char>> {
    match text {
        Some(text) => Some(text@),
        None => None,
    }
}

/// The text value of an optional text.
pub open spec fn optional_text_wire(text: Option<Seq<char>>) -> Option<JsonModel> {
    match text {
        Some(text) => Some(JsonModel::Text(text)),
        None => None,
    }
}

/// The boolean value of an optional flag.
pub open spec fn optional_flag_wire(flag: Option<bool>) -> Option<JsonModel> {
    match flag {
        Some(flag) => Some(JsonModel::Bool(flag)),
        None => None,
    }
}

/// An owned copy of an optional text.
fn owned_text(text: Option<&str>) -> (r: Option<String>)
    ensures
        optional_text(r) == optional_str(text),
{
    match text {
        Some(text) => Some(text.to_owned()),
        None => None,
    }
}

/// The text value of an optional text.
fn optional_text_json(text: &Option<String>) -> (r: Option<JsonValue>)
    ensures
        match r {
            Some(value) => optional_text_wire(optional_text(*text)) == Some(value@),
            None => optional_text_wire(optional_text(*text)) is None,
        },
{
    match text {
        Some(text) => Some(JsonValue::text(text.as_str())),
        None => None,
    }
}

/// The boolean value of an optional flag.
fn optional_flag_json(flag: &Option<bool>) -> (r: Option<JsonValue>)
    ensures
        match r {
            Some(value) => optional_flag_wire(*flag) == Some(value@),
            None => optional_flag_wire(*flag) is None,
        },
{
    match flag {
        Some(flag) => Some(JsonValue::Bool(*flag)),
        None => None,
    }
}

/// How the relying party wants the authenticator's attestation conveyed.
#[derive(Clone, Copy, Debug, PartialEq, Eq, Structural)]
pub enum Attestation {
    /// `none`: the relying party does not ask for attestation.
    NoAttestation,
    Indirect,
    Direct,
}

impl Attestation {
    /// The wire token of the preference.
    pub open spec fn wire_token(self) -> Seq<char> {
        match self {
            Attestation::NoAttestation => "none"@,
            Attestation::Indirect => "indirect"@,
            Attestation::Direct => "direct"@,
        }
    }

    /// The wire token of the preference.
    pub fn token(&self) -> (token: &'static str)
        ensures
            token@ == self.wire_token(),
    {
        match self {
            Attestation::NoAttestation => "none",
            Attestation::Indirect => "indirect",
            Attestation::Direct => "direct",
        }
    }

    /// The wire form: the token as a text.
    pub fn to_json(&self) -> (value: JsonValue)
        ensures
            value@ == JsonModel::Text(self.wire_token()),
    {
        JsonValue::text(self.token())
    }
}

impl Default for Attestation {
    /// The preference of a caller that asks for the default: `direct`.
    fn default() -> (r: Self)
        ensures
            r == Attestation::Direct,
    {
        Attestation::Direct
    }
}

/// Whether the relying party wants the user verified.
#[derive(Clone, Copy, Debug, PartialEq, Eq, Structural)]
pub enum UserVerification {
    Required,
    Preferred,
    Discouraged,
}

impl UserVerification {
    /// The wire token of the requirement.
    pub open spec fn wire_token(self) -> Seq<char> {
        match self {
            UserVerification::Required => "required"@,
            UserVerification::Preferred => "preferred"@,
            UserVerification::Discouraged => "discouraged"@,
        }
    }

    /// The wire token of the requirement.
    pub fn token(&self) -> (token: &'static str)
        ensures
            token@ == self.wire_token(),
    {
        match self {
            UserVerification::Required => "required",
            UserVerification::Preferred => "preferred",
            UserVerification::Discouraged => "discouraged",
        }
    }

    /// The wire form: the token as a text.
    pub fn to_json(&self) -> (value: JsonValue)
        ensures
            value@ == JsonModel::Text(self.wire_token()),
    {
        JsonValue::text(self.token())
    }
}

/// A signature algorithm, named as in the COSE registry.
#[derive(Clone, Copy, Debug, PartialEq, Eq, Structural)]
pub enum Algorithm {
    ES256,
    PS256,
    RS256,
}

impl Algorithm {
    /// The COSE identifier of the algorithm.
    pub open spec fn wire_code(self) -> int {
        match self {
            Algorithm::ES256 => -7,
            Algorithm::PS256 => -37,
            Algorithm::RS256 => -257,
        }
    }

    /// The COSE identifier of the algorithm.
    pub fn code(&self) -> (code: i16)
        ensures
            code == self.wire_code(),
    {
        match self {
            Algorithm::ES256 => -7,
            Algorithm::PS256 => -37,
            Algorithm::RS256 => -257,
        }
    }

    /// The wire form: the identifier as a number.
    pub fn to_json(&self) -> (value: JsonValue)
        ensures
            value@ == JsonModel::Integer(self.wire_code()),
    {
        JsonValue::Integer(self.code() as i128)
    }
}

/// How the authenticator is attached to the client.
#[derive(Clone, Copy, Debug, PartialEq, Eq, Structural)]
pub enum AuthenticatorAttachment {
    Platform,
    CrossPlatform,
}

impl AuthenticatorAttachment {
    /// The wire token of the attachment.
    pub open spec fn wire_token(self) -> Seq<char> {
        match self {
            AuthenticatorAttachment::Platform => "platform"@,
            AuthenticatorAttachment::CrossPlatform => "cross-platform"@,
        }
    }

    /// The wire token of the attachment.
    pub fn token(&self) -> (token: &'static str)
        ensures
            token@ == self.wire_token(),
    {
        match self {
            AuthenticatorAttachment::Platform => "platform",
            AuthenticatorAttachment::CrossPlatform => "cross-platform",
        }
    }

    /// The wire form: the token as a text.
    pub fn to_json(&self) -> (value: JsonValue)
        ensures
            value@ == JsonModel::Text(self.wire_token()),
    {
        JsonValue::text(self.token())
    }
}

/// A transport over which a known credential can be reached.
#[derive(Clone, Copy, Debug, PartialEq, Eq, Structural)]
pub enum ExcludeCredentialTransport {
    USB,
    NFC,
    BLE,
    INTERNAL,
}

impl ExcludeCredentialTransport {
    /// The wire token of the transport.
    pub open spec fn wire_token(self) -> Seq<char> {
        match self {
            ExcludeCredentialTransport::USB => "usb"@,
            ExcludeCredentialTransport::NFC => "nfc"@,
            ExcludeCredentialTransport::BLE => "ble"@,
            ExcludeCredentialTransport::INTERNAL => "internal"@,
        }
    }

    /// The wire token of the transport.
    pub fn token(&self) -> (token: &'static str)
        ensures
            token@ == self.wire_token(),
    {
        match self {
            ExcludeCredentialTransport::USB => "usb",
            ExcludeCredentialTransport::NFC => "nfc",
            ExcludeCredentialTransport::BLE => "ble",
            ExcludeCredentialTransport::INTERNAL => "internal",
        }
    }

    /// The wire form: the token as a text.
    pub fn to_json(&self) -> (value: JsonValue)
        ensures
            value@ == JsonModel::Text(self.wire_token()),
    {
        JsonValue::text(self.token())
    }
}

/// The relying party that asks for the credential.
#[derive(Debug)]
pub struct RelyingParty {
    pub name: String,
    /// The RP ID: the domain that the relying party asserts.
    pub id: String,
    pub icon: Option<String>,
}

/// Mathematical content of a [`RelyingParty`].
pub struct RelyingPartyView {
    pub name: Seq<char>,
    pub id: Seq<char>,
    pub icon: Option<Seq<char>>,
}

impl View for RelyingParty {
    type V = RelyingPartyView;

    open spec fn view(&self) -> RelyingPartyView {
        RelyingPartyView { name: self.name@, id: self.id@, icon: optional_text(self.icon) }
    }
}

impl RelyingPartyView {
    /// The members that every relying party has.
    pub open spec fn required_members(self) -> Seq<(Seq<char>, JsonModel)> {
        seq![("name"@, JsonModel::Text(self.name)), ("id"@, JsonModel::Text(self.id))]
    }

    /// The wire form: `name`, `id` and, where set, `icon`.
    pub open spec fn wire(self) -> JsonModel {
        JsonModel::Object(
            self.required_members() + optional_member("icon"@, optional_text_wire(self.icon)),
        )
    }
}

impl RelyingParty {
    /// A relying party with the given name, RP ID and icon.
    pub fn new(name: &str, id: &str, icon: Option<&str>) -> (rp: Self)
        ensures
            rp@ == (RelyingPartyView { name: name@, id: id@, icon: optional_str(icon) }),
    {
        RelyingParty { name: name.to_owned(), id: id.to_owned(), icon: owned_text(icon) }
    }

    /// Builds the wire form.
    pub fn to_json(&self) -> (value: JsonValue)
        ensures
            value@ == self@.wire(),
    {
        let mut object = ObjectBuilder::new();
        object.put("name", JsonValue::text(self.name.as_str()));
        object.put("id", JsonValue::text(self.id.as_str()));
        assert(object.model() == self@.required_members());
        object.put_optional("icon", optional_text_json(&self.icon));
        object.finish()
    }
}

/// The user for whom the credential is created.
#[derive(Debug)]
pub struct User {
    /// The user handle: base64url text of random bytes that the server
    /// chose.
    pub id: String,
    pub name: String,
    pub display_name: String,
    pub icon: Option<String>,
}

/// Mathematical content of a [`User`].
pub struct UserView {
    pub id: Seq<char>,
    pub name: Seq<char>,
    pub display_name: Seq<char>,
    pub icon: Option<Seq<char>>,
}

impl View for User {
    type V = UserView;

    open spec fn view(&self) -> UserView {
        UserView {
            id: self.id@,
            name: self.name@,
            display_name: self.display_name@,
            icon: optional_text(self.icon),
        }
    }
}

impl UserView {
    /// The members that every user has.
    pub open spec fn required_members(self) -> Seq<(Seq<char>, JsonModel)> {
        seq![
            ("id"@, JsonModel::Text(self.id)),
            ("name"@, JsonModel::Text(self.name)),
            ("displayName"@, JsonModel::Text(self.display_name)),
        ]
    }

    /// The wire form: `id`, `name`, `displayName` and, where set, `icon`.
    pub open spec fn wire(self) -> JsonModel {
        JsonModel::Object(
            self.required_members() + optional_member("icon"@, optional_text_wire(self.icon)),
        )
    }
}

impl User {
    /// A user with the given handle.
    pub fn with_id(id: String, name: &str, display_name: &str, icon: Option<&str>) -> (user: Self)
        ensures
            user@ == (UserView {
                id: id@,
                name: name@,
                display_name: display_name@,
                icon: optional_str(icon),
            }),
    {
        User {
            id,
            name: name.to_owned(),
            display_name: display_name.to_owned(),
            icon: owned_text(icon),
        }
    }

    /// A user with a fresh random handle of 20 bytes.
    pub fn new(name: &str, display_name: &str, icon: Option<&str>) -> (user: Self)
        ensures
            encodes_bytes_of_length(user@.id, DEFAULT_USER_HANDLE_LENGTH as nat),
            user@.name == name@,
            user@.display_name == display_name@,
            user@.icon == optional_str(icon),
    {
        User::with_id(generate_random(DEFAULT_USER_HANDLE_LENGTH), name, display_name, icon)
    }

    /// Builds the wire form.
    pub fn to_json(&self) -> (value: JsonValue)
        ensures
            value@ == self@.wire(),
    {
        let mut object = ObjectBuilder::new();
        object.put("id", JsonValue::text(self.id.as_str()));
        object.put("name", JsonValue::text(self.name.as_str()));
        object.put("displayName", JsonValue::text(self.display_name.as_str()));
        assert(object.model() == self@.required_members());
        object.put_optional("icon", optional_text_json(&self.icon));
        object.finish()
    }
}

/// One accepted kind of credential: a signature algorithm.
#[derive(Debug)]
pub struct CredParam {
    pub alg: Algorithm,
    /// The credential type, always `public-key`.
    pub type_: String,
}

/// Mathematical content of a [`CredParam`].
pub struct CredParamView {
    pub alg: Algorithm,
    pub type_: Seq<char>,
}

impl View for CredParam {
    type V = CredParamView;

    open spec fn view(&self) -> CredParamView {
        CredParamView { alg: self.alg, type_: self.type_@ }
    }
}

impl CredParamView {
    /// The wire form: `alg` as the COSE identifier, and `type`.
    pub open spec fn wire(self) -> JsonModel {
        JsonModel::Object(
            seq![
                ("alg"@, JsonModel::Integer(self.alg.wire_code())),
                ("type"@, JsonModel::Text(self.type_)),
            ],
        )
    }
}

impl CredParam {
    /// A public-key credential with the given algorithm.
    pub fn new(alg: Algorithm) -> (param: Self)
        ensures
            param@ == (CredParamView { alg, type_: public_key_type() }),
    {
        CredParam { alg, type_: "public-key".to_owned() }
    }

    /// Builds the wire form.
    pub fn to_json(&self) -> (value: JsonValue)
        ensures
            value@ == self@.wire(),
    {
        let mut object = ObjectBuilder::new();
        object.put("alg", self.alg.to_json());
        object.put("type", JsonValue::text(self.type_.as_str()));
        assert(object.model() == seq![
            ("alg"@, JsonModel::Integer(self.alg.wire_code())),
            ("type"@, JsonModel::Text(self.type_@)),
        ]);
        object.finish()
    }
}

/// Bounds on the error rates of a biometric authenticator. Each rate is held
/// as the bit pattern of its IEEE 754 binary64 value.
#[derive(Clone, Copy, Debug)]
pub struct BiometricPerfBounds {
    /// Highest false acceptance rate that is accepted.
    pub far: u64,
    /// Highest false rejection rate that is accepted.
    pub frr: u64,
}

impl BiometricPerfBounds {
    /// Bounds with the given bit patterns.
    pub fn from_bits(far: u64, frr: u64) -> (bounds: Self)
        ensures
            bounds.far == far,
            bounds.frr == frr,
    {
        BiometricPerfBounds { far, frr }
    }

    /// The wire form: `far` and `frr` as numbers.
    pub open spec fn wire(self) -> JsonModel {
        JsonModel::Object(
            seq![("far"@, JsonModel::Real(self.far)), ("frr"@, JsonModel::Real(self.frr))],
        )
    }

    /// Builds the wire form.
    pub fn to_json(&self) -> (value: JsonValue)
        ensures
            value@ == self.wire(),
    {
        let mut object = ObjectBuilder::new();
        object.put("far", JsonValue::Real(self.far));
        object.put("frr", JsonValue::Real(self.frr));
        assert(object.model() == seq![
            ("far"@, JsonModel::Real(self.far)),
            ("frr"@, JsonModel::Real(self.frr)),
        ]);
        object.finish()
    }
}

/// The numbers of a list, each as a JSON number.
pub open spec fn numbers_wire(numbers: Seq<usize>) -> Seq<JsonModel> {
    Seq::new(numbers.len(), |i: int| JsonModel::Integer(numbers[i] as int))
}

/// The content of an optional list of numbers.
pub open spec fn optional_numbers(numbers: Option<Vec<usize>>) -> Option<Seq<usize>> {
    match numbers {
        Some(numbers) => Some(numbers@),
        None => None,
    }
}

/// The array of a list of numbers.
fn numbers_json(numbers: &Vec<usize>) -> (value: JsonValue)
    ensures
        value@ == JsonModel::Array(numbers_wire(numbers@)),
{
    let mut items: Vec<JsonValue> = Vec::new();
    let mut i: usize = 0;
    while i < numbers.len()
        invariant
            i <= numbers.len(),
            items@.len() == i,
            forall|j: int|
                0 <= j < i ==> (#[trigger] items@[j])@ == JsonModel::Integer(numbers@[j] as int),
        decreases numbers.len() - i,
    {
        items.push(JsonValue::Integer(numbers[i] as i128));
        i += 1;
    }
    assert(items_model(items@) =~= numbers_wire(numbers@));
    JsonValue::array(items)
}

/// Extension inputs for the client and the authenticator.
#[derive(Debug)]
pub struct Extension {
    pub auth_sel: Option<Vec<usize>>,
    pub exts: Option<bool>,
    pub uvi: Option<bool>,
    pub loc: Option<bool>,
    pub uvm: Option<bool>,
    pub biometric_perf_bounds: Option<BiometricPerfBounds>,
}

/// Mathematical content of an [`Extension`].
pub struct ExtensionView {
    pub auth_sel: Option<Seq<usize>>,
    pub exts: Option<bool>,
    pub uvi: Option<bool>,
    pub loc: Option<bool>,
    pub uvm: Option<bool>,
    pub biometric_perf_bounds: Option<BiometricPerfBounds>,
}

impl View for Extension {
    type V = ExtensionView;

    open spec fn view(&self) -> ExtensionView {
        ExtensionView {
            auth_sel: optional_numbers(self.auth_sel),
            exts: self.exts,
            uvi: self.uvi,
            loc: self.loc,
            uvm: self.uvm,
            biometric_perf_bounds: self.biometric_perf_bounds,
        }
    }
}

impl ExtensionView {
    /// The wire form of the authenticator selection list, where it is set.
    pub open spec fn auth_sel_wire(self) -> Option<JsonModel> {
        match self.auth_sel {
            Some(numbers) => Some(JsonModel::Array(numbers_wire(numbers))),
            None => None,
        }
    }

    /// The wire form of the bounds, where they are set.
    pub open spec fn bounds_wire(self) -> Option<JsonModel> {
        match self.biometric_perf_bounds {
            Some(bounds) => Some(bounds.wire()),
            None => None,
        }
    }

    /// The members of the fields that are set.
    pub open spec fn members(self) -> Seq<(Seq<char>, JsonModel)> {
        optional_member("authSel"@, self.auth_sel_wire()) + optional_member(
            "exts"@,
            optional_flag_wire(self.exts),
        ) + optional_member("uvi"@, optional_flag_wire(self.uvi)) + optional_member(
            "loc"@,
            optional_flag_wire(self.loc),
        ) + optional_member("uvm"@, optional_flag_wire(self.uvm)) + optional_member(
            "biometricPerfBounds"@,
            self.bounds_wire(),
        )
    }

    /// The wire form: one member for each field that is set, in the order
    /// `authSel`, `exts`, `uvi`, `loc`, `uvm`, `biometricPerfBounds`.
    pub open spec fn wire(self) -> JsonModel {
        JsonModel::Object(self.members())
    }
}

impl Extension {
    /// Extension inputs with the given fields.
    pub fn new(
        auth_sel: Option<Vec<usize>>,
        exts: Option<bool>,
        uvi: Option<bool>,
        loc: Option<bool>,
        uvm: Option<bool>,
        biometric_perf_bounds: Option<BiometricPerfBounds>,
    ) -> (extension: Self)
        ensures
            extension@ == (ExtensionView {
                auth_sel: optional_numbers(auth_sel),
                exts,
                uvi,
                loc,
                uvm,
                biometric_perf_bounds,
            }),
    {
        Extension { auth_sel, exts, uvi, loc, uvm, biometric_perf_bounds }
    }

    /// Builds the wire form.
    pub fn to_json(&self) -> (value: JsonValue)
        ensures
            value@ == self@.wire(),
    {
        let mut object = ObjectBuilder::new();
        let auth_sel = match &self.auth_sel {
            Some(numbers) => Some(numbers_json(numbers)),
            None => None,
        };
        object.put_optional("authSel", auth_sel);
        assert(object.model() == optional_member("authSel"@, self@.auth_sel_wire()));
        object.put_optional("exts", optional_flag_json(&self.exts));
        object.put_optional("uvi", optional_flag_json(&self.uvi));
        object.put_optional("loc", optional_flag_json(&self.loc));
        object.put_optional("uvm", optional_flag_json(&self.uvm));
        let bounds = match &self.biometric_perf_bounds {
            Some(bounds) => Some(bounds.to_json()),
            None => None,
        };
        object.put_optional("biometricPerfBounds", bounds);
        object.finish()
    }
}

/// What the relying party asks of the authenticator that creates the
/// credential.
#[derive(Clone, Copy, Debug)]
pub struct AuthenticatorSelection {
    pub user_verification: Option<UserVerification>,
    pub authenticator_attachment: Option<AuthenticatorAttachment>,
    pub require_resident_key: Option<bool>,
}

impl AuthenticatorSelection {
    /// Criteria with the given fields.
    pub fn new(
        user_verification: Option<UserVerification>,
        authenticator_attachment: Option<AuthenticatorAttachment>,
        require_resident_key: Option<bool>,
    ) -> (selection: Self)
        ensures
            selection.user_verification == user_verification,
            selection.authenticator_attachment == authenticator_attachment,
            selection.require_resident_key == require_resident_key,
    {
        AuthenticatorSelection { user_verification, authenticator_attachment, require_resident_key }
    }

    /// The wire form of the user verification requirement, where it is set.
    pub open spec fn user_verification_wire(self) -> Option<JsonModel> {
        match self.user_verification {
            Some(requirement) => Some(JsonModel::Text(requirement.wire_token())),
            None => None,
        }
    }

    /// The wire form of the attachment, where it is set.
    pub open spec fn attachment_wire(self) -> Option<JsonModel> {
        match self.authenticator_attachment {
            Some(attachment) => Some(JsonModel::Text(attachment.wire_token())),
            None => None,
        }
    }

    /// The members of the criteria that are set.
    pub open spec fn members(self) -> Seq<(Seq<char>, JsonModel)> {
        optional_member("userVerification"@, self.user_verification_wire()) + optional_member(
            "authenticatorAttachment"@,
            self.attachment_wire(),
        ) + optional_member("requireResidentKey"@, optional_flag_wire(self.require_resident_key))
    }

    /// The wire form: one member for each criterion that is set, in the
    /// order `userVerification`, `authenticatorAttachment`,
    /// `requireResidentKey`.
    pub open spec fn wire(self) -> JsonModel {
        JsonModel::Object(self.members())
    }

    /// Builds the wire form.
    pub fn to_json(&self) -> (value: JsonValue)
        ensures
            value@ == self.wire(),
    {
        let mut object = ObjectBuilder::new();
        let user_verification = match &self.user_verification {
            Some(requirement) => Some(requirement.to_json()),
            None => None,
        };
        object.put_optional("userVerification", user_verification);
        assert(object.model() == optional_member(
            "userVerification"@,
            self.user_verification_wire(),
        ));
        let attachment = match &self.authenticator_attachment {
            Some(attachment) => Some(attachment.to_json()),
            None => None,
        };
        object.put_optional("authenticatorAttachment", attachment);
        object.put_optional("requireResidentKey", optional_flag_json(&self.require_resident_key));
        object.finish()
    }
}

/// A credential that the user already has with the relying party, and for
/// which no second one shall be created on the same authenticator.
#[derive(Debug)]
pub struct ExcludeCredential {
    /// The credential type, always `public-key`.
    pub type_: String,
    /// The credential id, in base64url.
    pub id: String,
    pub transports: Option<ExcludeCredentialTransport>,
}

/// Mathematical content of an [`ExcludeCredential`].
pub struct ExcludeCredentialView {
    pub type_: Seq<char>,
    pub id: Seq<char>,
    pub transports: Option<ExcludeCredentialTransport>,
}

impl View for ExcludeCredential {
    type V = ExcludeCredentialView;

    open spec fn view(&self) -> ExcludeCredentialView {
        ExcludeCredentialView { type_: self.type_@, id: self.id@, transports: self.transports }
    }
}

impl ExcludeCredentialView {
    /// The wire form of the transport hint, where it is set.
    pub open spec fn transports_wire(self) -> Option<JsonModel> {
        match self.transports {
            Some(transport) => Some(JsonModel::Text(transport.wire_token())),
            None => None,
        }
    }

    /// The members that every excluded credential has.
    pub open spec fn required_members(self) -> Seq<(Seq<char>, JsonModel)> {
        seq![("type"@, JsonModel::Text(self.type_)), ("id"@, JsonModel::Text(self.id))]
    }

    /// The wire form: `type`, `id` and, where set, `transports`.
    pub open spec fn wire(self) -> JsonModel {
        JsonModel::Object(
            self.required_members() + optional_member("transports"@, self.transports_wire()),
        )
    }
}

impl ExcludeCredential {
    /// A public-key credential with the given id and transport hint.
    pub fn new(id: String, transports: Option<ExcludeCredentialTransport>) -> (credential: Self)
        ensures
            credential@ == (ExcludeCredentialView {
                type_: public_key_type(),
                id: id@,
                transports,
            }),
    {
        ExcludeCredential { type_: "public-key".to_owned(), id, transports }
    }

    /// Builds the wire form.
    pub fn to_json(&self) -> (value: JsonValue)
        ensures
            value@ == self@.wire(),
    {
        let mut object = ObjectBuilder::new();
        object.put("type", JsonValue::text(self.type_.as_str()));
        object.put("id", JsonValue::text(self.id.as_str()));
        assert(object.model() == self@.required_members());
        let transports = match &self.transports {
            Some(transport) => Some(transport.to_json()),
            None => None,
        };
        object.put_optional("transports", transports);
        object.finish()
    }
}

/// The contents of a list of accepted credential kinds.
pub open spec fn params_view(params: Seq<CredParam>) -> Seq<CredParamView> {
    Seq::new(params.len(), |i: int| params[i]@)
}

/// The contents of a list of excluded credentials.
pub open spec fn excluded_view(credentials: Seq<ExcludeCredential>) -> Seq<ExcludeCredentialView> {
    Seq::new(credentials.len(), |i: int| credentials[i]@)
}

/// The content of an optional list of excluded credentials.
pub open spec fn optional_excluded(credentials: Option<Vec<ExcludeCredential>>) -> Option<
    Seq<ExcludeCredentialView>,
> {
    match credentials {
        Some(credentials) => Some(excluded_view(credentials@)),
        None => None,
    }
}

/// The content of optional extension inputs.
pub open spec fn optional_extension(extension: Option<Extension>) -> Option<ExtensionView> {
    match extension {
        Some(extension) => Some(extension@),
        None => None,
    }
}

/// The wire forms of a list of accepted credential kinds.
pub open spec fn params_wire(params: Seq<CredParamView>) -> Seq<JsonModel> {
    Seq::new(params.len(), |i: int| params[i].wire())
}

/// The wire forms of a list of excluded credentials.
pub open spec fn excluded_wire(credentials: Seq<ExcludeCredentialView>) -> Seq<JsonModel> {
    Seq::new(credentials.len(), |i: int| credentials[i].wire())
}

/// The array of a list of accepted credential kinds.
fn params_json(params: &Vec<CredParam>) -> (value: JsonValue)
    ensures
        value@ == JsonModel::Array(params_wire(params_view(params@))),
{
    let mut items: Vec<JsonValue> = Vec::new();
    let mut i: usize = 0;
    while i < params.len()
        invariant
            i <= params.len(),
            items@.len() == i,
            forall|j: int| 0 <= j < i ==> (#[trigger] items@[j])@ == params@[j]@.wire(),
        decreases params.len() - i,
    {
        items.push(params[i].to_json());
        i += 1;
    }
    assert(items_model(items@) =~= params_wire(params_view(params@)));
    JsonValue::array(items)
}

/// The array of a list of excluded credentials.
fn excluded_json(credentials: &Vec<ExcludeCredential>) -> (value: JsonValue)
    ensures
        value@ == JsonModel::Array(excluded_wire(excluded_view(credentials@))),
{
    let mut items: Vec<JsonValue> = Vec::new();
    let mut i: usize = 0;
    while i < credentials.len()
        invariant
            i <= credentials.len(),
            items@.len() == i,
            forall|j: int| 0 <= j < i ==> (#[trigger] items@[j])@ == credentials@[j]@.wire(),
        decreases credentials.len() - i,
    {
        items.push(credentials[i].to_json());
        i += 1;
    }
    assert(items_model(items@) =~= excluded_wire(excluded_view(credentials@)));
    JsonValue::array(items)
}

/// The optional parts of the options, each of which a relying party may set
/// or leave out.
#[derive(Debug)]
pub struct OptionsConfig {
    /// Time, in milliseconds, that the client may take. Where it is left
    /// out the ceremony runs with [`DEFAULT_TIMEOUT_MS`].
    pub timeout: Option<usize>,
    pub exclude_credentials: Option<Vec<ExcludeCredential>>,
    pub authenticator_selection: Option<AuthenticatorSelection>,
    /// The attestation preference. A caller that wants the default asks for
    /// it with `Some(Attestation::default())`; left out, none is stated.
    pub attestation: Option<Attestation>,
    pub extensions: Option<Extension>,
}

impl Default for OptionsConfig {
    /// The configuration that sets nothing.
    fn default() -> (config: Self)
        ensures
            config.timeout is None,
            config.exclude_credentials is None,
            config.authenticator_selection is None,
            config.attestation is None,
            config.extensions is None,
    {
        OptionsConfig {
            timeout: None,
            exclude_credentials: None,
            authenticator_selection: None,
            attestation: None,
            extensions: None,
        }
    }
}

/// The options for creating a public-key credential.
#[derive(Debug)]
pub struct PublicKeyCredentialCreationOptions {
    pub rp: RelyingParty,
    pub user: User,
    /// The challenge of this ceremony, in base64url.
    pub challenge: String,
    /// The accepted kinds of credential, most preferred first; never empty.
    pub pub_key_cred_params: Vec<CredParam>,
    /// Time, in milliseconds, that the client may take.
    pub timeout: Option<usize>,
    pub exclude_credentials: Option<Vec<ExcludeCredential>>,
    pub authenticator_selection: Option<AuthenticatorSelection>,
    pub attestation: Option<Attestation>,
    pub extensions: Option<Extension>,
}

/// Mathematical content of [`PublicKeyCredentialCreationOptions`].
pub struct OptionsView {
    pub rp: RelyingPartyView,
    pub user: UserView,
    pub challenge: Seq<char>,
    pub pub_key_cred_params: Seq<CredParamView>,
    pub timeout: Option<usize>,
    pub exclude_credentials: Option<Seq<ExcludeCredentialView>>,
    pub authenticator_selection: Option<AuthenticatorSelection>,
    pub attestation: Option<Attestation>,
    pub extensions: Option<ExtensionView>,
}

impl View for PublicKeyCredentialCreationOptions {
    type V = OptionsView;

    open spec fn view(&self) -> OptionsView {
        OptionsView {
            rp: self.rp@,
            user: self.user@,
            challenge: self.challenge@,
            pub_key_cred_params: params_view(self.pub_key_cred_params@),
            timeout: self.timeout,
            exclude_credentials: optional_excluded(self.exclude_credentials),
            authenticator_selection: self.authenticator_selection,
            attestation: self.attestation,
            extensions: optional_extension(self.extensions),
        }
    }
}

impl OptionsView {
    /// The options name at least one accepted kind of credential.
    pub open spec fn wf(self) -> bool {
        self.pub_key_cred_params.len() >= 1
    }

    /// The wire form of the timeout, where it is set.
    pub open spec fn timeout_wire(self) -> Option<JsonModel> {
        match self.timeout {
            Some(timeout) => Some(JsonModel::Integer(timeout as int)),
            None => None,
        }
    }

    /// The wire form of the exclude list, where it is set.
    pub open spec fn exclude_credentials_wire(self) -> Option<JsonModel> {
        match self.exclude_credentials {
            Some(credentials) => Some(JsonModel::Array(excluded_wire(credentials))),
            None => None,
        }
    }

    /// The wire form of the authenticator selection, where it is set.
    pub open spec fn authenticator_selection_wire(self) -> Option<JsonModel> {
        match self.authenticator_selection {
            Some(selection) => Some(selection.wire()),
            None => None,
        }
    }

    /// The wire form of the attestation preference, where it is set.
    pub open spec fn attestation_wire(self) -> Option<JsonModel> {
        match self.attestation {
            Some(attestation) => Some(JsonModel::Text(attestation.wire_token())),
            None => None,
        }
    }

    /// The wire form of the extension inputs, where they are set.
    pub open spec fn extensions_wire(self) -> Option<JsonModel> {
        match self.extensions {
            Some(extensions) => Some(extensions.wire()),
            None => None,
        }
    }

    /// The members that every options document has.
    pub open spec fn required_members(self) -> Seq<(Seq<char>, JsonModel)> {
        seq![
            ("rp"@, self.rp.wire()),
            ("user"@, self.user.wire()),
            ("challenge"@, JsonModel::Text(self.challenge)),
            ("pubKeyCredParams"@, JsonModel::Array(params_wire(self.pub_key_cred_params))),
        ]
    }

    /// The members of the optional fields that are set.
    pub open spec fn optional_members(self) -> Seq<(Seq<char>, JsonModel)> {
        optional_member("timeout"@, self.timeout_wire()) + optional_member(
            "excludeCredentials"@,
            self.exclude_credentials_wire(),
        ) + optional_member("authenticatorSelection"@, self.authenticator_selection_wire())
            + optional_member("attestation"@, self.attestation_wire()) + optional_member(
            "extensions"@,
            self.extensions_wire(),
        )
    }

    /// The wire form: `rp`, `user`, `challenge` and `pubKeyCredParams`, then
    /// one member for each optional field that is set, in the order
    /// `timeout`, `excludeCredentials`, `authenticatorSelection`,
    /// `attestation`, `extensions`.
    pub open spec fn wire(self) -> JsonModel {
        JsonModel::Object(self.required_members() + self.optional_members())
    }

    /// The value that the wire form has under each member name.
    pub open spec fn wire_member(self, key: Seq<char>) -> Option<JsonModel> {
        if key == "rp"@ {
            Some(self.rp.wire())
        } else if key == "user"@ {
            Some(self.user.wire())
        } else if key == "challenge"@ {
            Some(JsonModel::Text(self.challenge))
        } else if key == "pubKeyCredParams"@ {
            Some(JsonModel::Array(params_wire(self.pub_key_cred_params)))
        } else if key == "timeout"@ {
            self.timeout_wire()
        } else if key == "excludeCredentials"@ {
            self.exclude_credentials_wire()
        } else if key == "authenticatorSelection"@ {
            self.authenticator_selection_wire()
        } else if key == "attestation"@ {
            self.attestation_wire()
        } else if key == "extensions"@ {
            self.extensions_wire()
        } else {
            None
        }
    }
}

impl PublicKeyCredentialCreationOptions {
    /// Options with the given challenge.
    pub fn with_challenge(
        rp: RelyingParty,
        user: User,
        challenge: String,
        pub_key_cred_params: Vec<CredParam>,
        timeout: Option<usize>,
        exclude_credentials: Option<Vec<ExcludeCredential>>,
        authenticator_selection: Option<AuthenticatorSelection>,
        attestation: Option<Attestation>,
        extensions: Option<Extension>,
    ) -> (options: Self)
        requires
            pub_key_cred_params@.len() >= 1,
        ensures
            options@ == (OptionsView {
                rp: rp@,
                user: user@,
                challenge: challenge@,
                pub_key_cred_params: params_view(pub_key_cred_params@),
                timeout,
                exclude_credentials: optional_excluded(exclude_credentials),
                authenticator_selection,
                attestation,
                extensions: optional_extension(extensions),
            }),
            options@.wf(),
    {
        PublicKeyCredentialCreationOptions {
            rp,
            user,
            challenge,
            pub_key_cred_params,
            timeout,
            exclude_credentials,
            authenticator_selection,
            attestation,
            extensions,
        }
    }

    /// Options with a fresh random challenge of `challenge_length` bytes.
    pub fn new(
        rp: RelyingParty,
        user: User,
        challenge_length: usize,
        pub_key_cred_params: Vec<CredParam>,
        timeout: Option<usize>,
        exclude_credentials: Option<Vec<ExcludeCredential>>,
        authenticator_selection: Option<AuthenticatorSelection>,
        attestation: Option<Attestation>,
        extensions: Option<Extension>,
    ) -> (options: Self)
        requires
            pub_key_cred_params@.len() >= 1,
            challenge_length <= isize::MAX,
        ensures
            encodes_bytes_of_length(options@.challenge, challenge_length as nat),
            options@ == (OptionsView {
                rp: rp@,
                user: user@,
                challenge: options@.challenge,
                pub_key_cred_params: params_view(pub_key_cred_params@),
                timeout,
                exclude_credentials: optional_excluded(exclude_credentials),
                authenticator_selection,
                attestation,
                extensions: optional_extension(extensions),
            }),
            options@.wf(),
    {
        PublicKeyCredentialCreationOptions::with_challenge(
            rp,
            user,
            generate_random(challenge_length),
            pub_key_cred_params,
            timeout,
            exclude_credentials,
            authenticator_selection,
            attestation,
            extensions,
        )
    }

    /// The timeout that holds for the ceremony: the one stated, or the
    /// default of 60000 ms.
    pub fn timeout_or_default(&self) -> (timeout: usize)
        ensures
            timeout == match self@.timeout {
                Some(timeout) => timeout,
                None => DEFAULT_TIMEOUT_MS,
            },
    {
        match self.timeout {
            Some(timeout) => timeout,
            None => DEFAULT_TIMEOUT_MS,
        }
    }

    /// Builds the wire form.
    pub fn to_json(&self) -> (value: JsonValue)
        ensures
            value@ == self@.wire(),
    {
        let mut object = ObjectBuilder::new();
        object.put("rp", self.rp.to_json());
        object.put("user", self.user.to_json());
        object.put("challenge", JsonValue::text(self.challenge.as_str()));
        object.put("pubKeyCredParams", params_json(&self.pub_key_cred_params));
        assert(object.model() == self@.required_members());
        let timeout = match self.timeout {
            Some(timeout) => Some(JsonValue::Integer(timeout as i128)),
            None => None,
        };
        object.put_optional("timeout", timeout);
        let exclude_credentials = match &self.exclude_credentials {
            Some(credentials) => Some(excluded_json(credentials)),
            None => None,
        };
        object.put_optional("excludeCredentials", exclude_credentials);
        let authenticator_selection = match &self.authenticator_selection {
            Some(selection) => Some(selection.to_json()),
            None => None,
        };
        object.put_optional("authenticatorSelection", authenticator_selection);
        let attestation = match &self.attestation {
            Some(attestation) => Some(attestation.to_json()),
            None => None,
        };
        object.put_optional("attestation", attestation);
        let extensions = match &self.extensions {
            Some(extensions) => Some(extensions.to_json()),
            None => None,
        };
        object.put_optional("extensions", extensions);
        assert(object.model() == self@.required_members() + self@.optional_members());
        object.finish()
    }
}

/// The lengths of the member names of an options document, which tell the
/// names apart.
proof fn lemma_option_names()
    ensures
        "rp"@.len() == 2,
        "user"@.len() == 4,
        "challenge"@.len() == 9,
        "pubKeyCredParams"@.len() == 16,
        "timeout"@.len() == 7,
        "excludeCredentials"@.len() == 18,
        "authenticatorSelection"@.len() == 22,
        "attestation"@.len() == 11,
        "extensions"@.len() == 10,
{
    reveal_strlit("rp");
    reveal_strlit("user");
    reveal_strlit("challenge");
    reveal_strlit("pubKeyCredParams");
    reveal_strlit("timeout");
    reveal_strlit("excludeCredentials");
    reveal_strlit("authenticatorSelection");
    reveal_strlit("attestation");
    reveal_strlit("extensions");
}

/// The wire form of the options has, under every name, the value that
/// [`OptionsView::wire_member`] states: the four required members, a member
/// for each optional field that is set, and no other.
pub proof fn lemma_options_wire_members(options: OptionsView, key: Seq<char>)
    ensures
        options.wire().member(key) == options.wire_member(key),
{
    lemma_option_names();
    let required = options.required_members();
    let timeout = optional_member("timeout"@, options.timeout_wire());
    let excluded = optional_member("excludeCredentials"@, options.exclude_credentials_wire());
    let selection = optional_member(
        "authenticatorSelection"@,
        options.authenticator_selection_wire(),
    );
    let attestation = optional_member("attestation"@, options.attestation_wire());
    let extensions = optional_member("extensions"@, options.extensions_wire());
    lemma_find_optional_member("timeout"@, options.timeout_wire(), key);
    lemma_find_optional_member("excludeCredentials"@, options.exclude_credentials_wire(), key);
    lemma_find_optional_member(
        "authenticatorSelection"@,
        options.authenticator_selection_wire(),
        key,
    );
    lemma_find_optional_member("attestation"@, options.attestation_wire(), key);
    lemma_find_optional_member("extensions"@, options.extensions_wire(), key);
    lemma_find_in_joined(timeout, excluded, key);
    lemma_find_in_joined(timeout + excluded, selection, key);
    lemma_find_in_joined(timeout + excluded + selection, attestation, key);
    lemma_find_in_joined(timeout + excluded + selection + attestation, extensions, key);
    lemma_find_in_joined(required, options.optional_members(), key);
    assert(find_member(required, key) == if key == "rp"@ {
        Some(options.rp.wire())
    } else if key == "user"@ {
        Some(options.user.wire())
    } else if key == "challenge"@ {
        Some(JsonModel::Text(options.challenge))
    } else if key == "pubKeyCredParams"@ {
        Some(JsonModel::Array(params_wire(options.pub_key_cred_params)))
    } else {
        None
    }) by {
        reveal_with_fuel(find_member_from, 5);
    }
}

/// An optional field of the options has a member in the wire form exactly
/// when it is set, and no member of the wire form is `null`.
pub proof fn lemma_unset_fields_are_omitted(options: OptionsView)
    ensures
        options.wire().member("timeout"@) is Some <==> options.timeout is Some,
        options.wire().member("excludeCredentials"@) is Some <==> options.exclude_credentials
            is Some,
        options.wire().member("authenticatorSelection"@) is Some
            <==> options.authenticator_selection is Some,
        options.wire().member("attestation"@) is Some <==> options.attestation is Some,
        options.wire().member("extensions"@) is Some <==> options.extensions is Some,
        forall|key: Seq<char>| options.wire().member(key) != Some(JsonModel::Null),
{
    lemma_option_names();
    lemma_options_wire_members(options, "timeout"@);
    lemma_options_wire_members(options, "excludeCredentials"@);
    lemma_options_wire_members(options, "authenticatorSelection"@);
    lemma_options_wire_members(options, "attestation"@);
    lemma_options_wire_members(options, "extensions"@);
    assert forall|key: Seq<char>| options.wire().member(key) != Some(JsonModel::Null) by {
        lemma_options_wire_members(options, key);
    }
}

/// Every accepted kind of credential is written with the COSE identifier of
/// its algorithm: -7 for ES256, -37 for PS256 and -257 for RS256.
pub proof fn lemma_algorithms_use_cose_codes(options: OptionsView, i: int)
    requires
        0 <= i < options.pub_key_cred_params.len(),
    ensures
        options.wire().member("pubKeyCredParams"@) matches Some(JsonModel::Array(items))
            && items.len() == options.pub_key_cred_params.len() && items[i].member("alg"@) == Some(
            JsonModel::Integer(options.pub_key_cred_params[i].alg.wire_code()),
        ),
        options.pub_key_cred_params[i].alg.wire_code() == match options.pub_key_cred_params[i].alg {
            Algorithm::ES256 => -7int,
            Algorithm::PS256 => -37int,
            Algorithm::RS256 => -257int,
        },
{
    lemma_options_wire_members(options, "pubKeyCredParams"@);
    lemma_option_names();
    let param = options.pub_key_cred_params[i];
    assert(param.wire().member("alg"@) == Some(JsonModel::Integer(param.alg.wire_code()))) by {
        reveal_with_fuel(find_member_from, 3);
    }
}

/// The icon of a relying party and of a user has a member in the wire form
/// exactly when it is set.
pub proof fn lemma_unset_icons_are_omitted(rp: RelyingPartyView, user: UserView)
    ensures
        rp.wire().member("icon"@) == optional_text_wire(rp.icon),
        user.wire().member("icon"@) == optional_text_wire(user.icon),
{
    reveal_strlit("icon");
    reveal_strlit("name");
    reveal_strlit("id");
    reveal_strlit("displayName");
    assert("icon"@[0] != "name"@[0]);
    assert("icon"@.len() != "id"@.len());
    assert("icon"@.len() != "displayName"@.len());
    lemma_find_optional_member("icon"@, optional_text_wire(rp.icon), "icon"@);
    lemma_find_optional_member("icon"@, optional_text_wire(user.icon), "icon"@);
    lemma_find_in_joined(
        rp.required_members(),
        optional_member("icon"@, optional_text_wire(rp.icon)),
        "icon"@,
    );
    lemma_find_in_joined(
        user.required_members(),
        optional_member("icon"@, optional_text_wire(user.icon)),
        "icon"@,
    );
    assert(find_member(rp.required_members(), "icon"@) is None) by {
        reveal_with_fuel(find_member_from, 4);
    }
    assert(find_member(user.required_members(), "icon"@) is None) by {
        reveal_with_fuel(find_member_from, 4);
    }
}

/// The value that the members of an authenticator selection have under
/// `key`.
proof fn lemma_selection_members(selection: AuthenticatorSelection, key: Seq<char>)
    ensures
        find_member(selection.members(), key) == if key == "userVerification"@ {
            selection.user_verification_wire()
        } else if key == "authenticatorAttachment"@ {
            selection.attachment_wire()
        } else if key == "requireResidentKey"@ {
            optional_flag_wire(selection.require_resident_key)
        } else {
            None
        },
{
    reveal_strlit("userVerification");
    reveal_strlit("authenticatorAttachment");
    reveal_strlit("requireResidentKey");
    assert("userVerification"@.len() == 16);
    assert("authenticatorAttachment"@.len() == 23);
    assert("requireResidentKey"@.len() == 18);
    let verification = optional_member("userVerification"@, selection.user_verification_wire());
    let attachment = optional_member("authenticatorAttachment"@, selection.attachment_wire());
    let resident = optional_member(
        "requireResidentKey"@,
        optional_flag_wire(selection.require_resident_key),
    );
    lemma_find_optional_member("userVerification"@, selection.user_verification_wire(), key);
    lemma_find_optional_member("authenticatorAttachment"@, selection.attachment_wire(), key);
    lemma_find_optional_member(
        "requireResidentKey"@,
        optional_flag_wire(selection.require_resident_key),
        key,
    );
    lemma_find_in_joined(verification, attachment, key);
    lemma_find_in_joined(verification + attachment, resident, key);
}

/// Each criterion of an authenticator selection has a member in the wire
/// form exactly when it is set.
pub proof fn lemma_unset_criteria_are_omitted(selection: AuthenticatorSelection)
    ensures
        selection.wire().member("userVerification"@) == selection.user_verification_wire(),
        selection.wire().member("authenticatorAttachment"@) == selection.attachment_wire(),
        selection.wire().member("requireResidentKey"@) == optional_flag_wire(
            selection.require_resident_key,
        ),
{
    reveal_strlit("userVerification");
    reveal_strlit("authenticatorAttachment");
    reveal_strlit("requireResidentKey");
    assert("userVerification"@.len() == 16);
    assert("authenticatorAttachment"@.len() == 23);
    assert("requireResidentKey"@.len() == 18);
    lemma_selection_members(selection, "userVerification"@);
    lemma_selection_members(selection, "authenticatorAttachment"@);
    lemma_selection_members(selection, "requireResidentKey"@);
}

/// The transport hint of an excluded credential has a member in the wire
/// form exactly when it is set.
pub proof fn lemma_unset_transports_are_omitted(credential: ExcludeCredentialView)
    ensures
        credential.wire().member("transports"@) == credential.transports_wire(),
{
    reveal_strlit("transports");
    reveal_strlit("type");
    reveal_strlit("id");
    assert("transports"@.len() == 10);
    assert("type"@.len() == 4);
    assert("id"@.len() == 2);
    lemma_find_optional_member("transports"@, credential.transports_wire(), "transports"@);
    lemma_find_in_joined(
        credential.required_members(),
        optional_member("transports"@, credential.transports_wire()),
        "transports"@,
    );
    assert(find_member(credential.required_members(), "transports"@) is None) by {
        reveal_with_fuel(find_member_from, 3);
    }
}

/// The value that the members of extension inputs have under `key`.
proof fn lemma_extension_members(extension: ExtensionView, key: Seq<char>)
    ensures
        find_member(extension.members(), key) == if key == "authSel"@ {
            extension.auth_sel_wire()
        } else if key == "exts"@ {
            optional_flag_wire(extension.exts)
        } else if key == "uvi"@ {
            optional_flag_wire(extension.uvi)
        } else if key == "loc"@ {
            optional_flag_wire(extension.loc)
        } else if key == "uvm"@ {
            optional_flag_wire(extension.uvm)
        } else if key == "biometricPerfBounds"@ {
            extension.bounds_wire()
        } else {
            None
        },
{
    lemma_extension_names();
    let auth_sel = optional_member("authSel"@, extension.auth_sel_wire());
    let exts = optional_member("exts"@, optional_flag_wire(extension.exts));
    let uvi = optional_member("uvi"@, optional_flag_wire(extension.uvi));
    let loc = optional_member("loc"@, optional_flag_wire(extension.loc));
    let uvm = optional_member("uvm"@, optional_flag_wire(extension.uvm));
    let bounds = optional_member("biometricPerfBounds"@, extension.bounds_wire());
    lemma_find_optional_member("authSel"@, extension.auth_sel_wire(), key);
    lemma_find_optional_member("exts"@, optional_flag_wire(extension.exts), key);
    lemma_find_optional_member("uvi"@, optional_flag_wire(extension.uvi), key);
    lemma_find_optional_member("loc"@, optional_flag_wire(extension.loc), key);
    lemma_find_optional_member("uvm"@, optional_flag_wire(extension.uvm), key);
    lemma_find_optional_member("biometricPerfBounds"@, extension.bounds_wire(), key);
    lemma_find_in_joined(auth_sel, exts, key);
    lemma_find_in_joined(auth_sel + exts, uvi, key);
    lemma_find_in_joined(auth_sel + exts + uvi, loc, key);
    lemma_find_in_joined(auth_sel + exts + uvi + loc, uvm, key);
    lemma_find_in_joined(auth_sel + exts + uvi + loc + uvm, bounds, key);
}

/// The member names of extension inputs differ from one another.
proof fn lemma_extension_names()
    ensures
        "authSel"@.len() == 7,
        "exts"@.len() == 4,
        "biometricPerfBounds"@.len() == 19,
        "uvi"@.len() == 3,
        "loc"@.len() == 3,
        "uvm"@.len() == 3,
        "uvi"@ != "loc"@,
        "uvm"@ != "loc"@,
        "uvi"@ != "uvm"@,
{
    reveal_strlit("authSel");
    reveal_strlit("exts");
    reveal_strlit("uvi");
    reveal_strlit("loc");
    reveal_strlit("uvm");
    reveal_strlit("biometricPerfBounds");
    assert("uvi"@[0] != "loc"@[0]);
    assert("uvm"@[0] != "loc"@[0]);
    assert("uvi"@[2] != "uvm"@[2]);
}

/// Each extension input has a member in the wire form exactly when it is
/// set.
pub proof fn lemma_unset_extensions_are_omitted(extension: ExtensionView)
    ensures
        extension.wire().member("authSel"@) == extension.auth_sel_wire(),
        extension.wire().member("exts"@) == optional_flag_wire(extension.exts),
        extension.wire().member("uvi"@) == optional_flag_wire(extension.uvi),
        extension.wire().member("loc"@) == optional_flag_wire(extension.loc),
        extension.wire().member("uvm"@) == optional_flag_wire(extension.uvm),
        extension.wire().member("biometricPerfBounds"@) == extension.bounds_wire(),
{
    lemma_extension_names();
    lemma_extension_members(extension, "authSel"@);
    lemma_extension_members(extension, "exts"@);
    lemma_extension_members(extension, "uvi"@);
    lemma_extension_members(extension, "loc"@);
    lemma_extension_members(extension, "uvm"@);
    lemma_extension_members(extension, "biometricPerfBounds"@);
}

} // verus!
