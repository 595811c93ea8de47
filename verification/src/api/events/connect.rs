//! The handshake: what a client says of itself and what the gateway answers.

use crate::json::{
    flags_of, i64_of, lookup, text_of, texts_of, u32_of, u64_of, without_keys, JsonModel,
    JsonObject, JsonValue, ObjectModel,
};
use crate::schema::{
    defaulted, defaulted_flags, defaulted_texts, flags_entry, i64_entry, lemma_keys_among_concat,
    lemma_keys_among_one, lemma_other_fields_follow, optional, optional_entry, optional_i64,
    optional_i64_entry, optional_text, optional_text_entry, optional_u32, optional_u32_entry,
    optional_u64, optional_u64_entry, put_flags, put_i64, put_json, put_optional_i64,
    put_optional_text, put_optional_u32, put_optional_u64, put_text, put_texts, required,
    required_i64, required_text, text_entry, texts_entry,
};
use vstd::prelude::*;

verus! {

/// The client program that connects.
#[derive(Debug, PartialEq, Eq)]
pub struct ConnectClient {
    pub id: String,
    pub version: Option<String>,
    pub platform: Option<String>,
    pub mode: Option<String>,
    pub display_name: Option<String>,
    pub device_family: Option<String>,
    pub model_identifier: Option<String>,
    pub instance_id: Option<String>,
    /// The fields that the type does not declare.
    pub extra: JsonObject,
}

/// The model of [`ConnectClient`].
pub struct ConnectClientModel {
    pub id: Seq<char>,
    pub version: Option<Seq<char>>,
    pub platform: Option<Seq<char>>,
    pub mode: Option<Seq<char>>,
    pub display_name: Option<Seq<char>>,
    pub device_family: Option<Seq<char>>,
    pub model_identifier: Option<Seq<char>>,
    pub instance_id: Option<Seq<char>>,
    pub extra: ObjectModel,
}

impl DeepView for ConnectClient {
    type V = ConnectClientModel;

    open spec fn deep_view(&self) -> ConnectClientModel {
        ConnectClientModel {
            id: self.id.deep_view(),
            version: self.version.deep_view(),
            platform: self.platform.deep_view(),
            mode: self.mode.deep_view(),
            display_name: self.display_name.deep_view(),
            device_family: self.device_family.deep_view(),
            model_identifier: self.model_identifier.deep_view(),
            instance_id: self.instance_id.deep_view(),
            extra: self.extra.deep_view(),
        }
    }
}

impl ConnectClientModel {
    /// The keys of the declared fields.
    pub open spec fn keys() -> Seq<Seq<char>> {
        seq![
            "id"@, "version"@, "platform"@, "mode"@, "displayName"@, "deviceFamily"@,
            "modelIdentifier"@, "instanceId"@,
        ]
    }

    /// What a document decodes to: nothing unless it is an object whose
    /// declared fields all have their types.
    pub open spec fn decoded(m: JsonModel) -> Option<ConnectClientModel> {
        match m {
            JsonModel::Object(o) => {
                let id = required(o, "id"@, |m: JsonModel| text_of(m));
                let version = optional(o, "version"@, |m: JsonModel| text_of(m));
                let platform = optional(o, "platform"@, |m: JsonModel| text_of(m));
                let mode = optional(o, "mode"@, |m: JsonModel| text_of(m));
                let display_name = optional(o, "displayName"@, |m: JsonModel| text_of(m));
                let device_family = optional(o, "deviceFamily"@, |m: JsonModel| text_of(m));
                let model_identifier = optional(o, "modelIdentifier"@, |m: JsonModel| text_of(m));
                let instance_id = optional(o, "instanceId"@, |m: JsonModel| text_of(m));
                if id is Some && version is Some && platform is Some && mode is Some
                    && display_name is Some && device_family is Some && model_identifier is Some
                    && instance_id is Some {
                    Some(
                        ConnectClientModel {
                            id: id->0,
                            version: version->0,
                            platform: platform->0,
                            mode: mode->0,
                            display_name: display_name->0,
                            device_family: device_family->0,
                            model_identifier: model_identifier->0,
                            instance_id: instance_id->0,
                            extra: without_keys(o, Self::keys()),
                        },
                    )
                } else {
                    None
                }
            },
            _ => None,
        }
    }

    /// The document that a value is written as: the declared fields in
    /// order, then the others.
    pub open spec fn encoded(self) -> JsonModel {
        JsonModel::Object(
            text_entry("id"@, self.id)
                + optional_text_entry("version"@, self.version)
                + optional_text_entry("platform"@, self.platform)
                + optional_text_entry("mode"@, self.mode)
                + optional_text_entry("displayName"@, self.display_name)
                + optional_text_entry("deviceFamily"@, self.device_family)
                + optional_text_entry("modelIdentifier"@, self.model_identifier)
                + optional_text_entry("instanceId"@, self.instance_id)
                + self.extra,
        )
    }

    /// The document of an optional value.
    pub open spec fn encoded_optional(value: Option<ConnectClientModel>) -> Option<JsonModel> {
        match value {
            Some(v) => Some(v.encoded()),
            None => None,
        }
    }

    /// A field that the type does not declare is written back as it was
    /// read.
    pub proof fn lemma_other_fields_survive(m: JsonModel, key: Seq<char>)
        requires
            Self::decoded(m) is Some,
            !Self::keys().contains(key),
        ensures
            m is Object,
            lookup(Self::decoded(m)->0.encoded()->Object_0, key) == lookup(m->Object_0, key),
    {
        let o = m->Object_0;
        let v = Self::decoded(m)->0;
        let keys = Self::keys();
        let e1 = text_entry("id"@, v.id);
        lemma_keys_among_one(e1, "id"@, keys, 0);
        let e2 = optional_text_entry("version"@, v.version);
        lemma_keys_among_one(e2, "version"@, keys, 1);
        let e3 = optional_text_entry("platform"@, v.platform);
        lemma_keys_among_one(e3, "platform"@, keys, 2);
        let e4 = optional_text_entry("mode"@, v.mode);
        lemma_keys_among_one(e4, "mode"@, keys, 3);
        let e5 = optional_text_entry("displayName"@, v.display_name);
        lemma_keys_among_one(e5, "displayName"@, keys, 4);
        let e6 = optional_text_entry("deviceFamily"@, v.device_family);
        lemma_keys_among_one(e6, "deviceFamily"@, keys, 5);
        let e7 = optional_text_entry("modelIdentifier"@, v.model_identifier);
        lemma_keys_among_one(e7, "modelIdentifier"@, keys, 6);
        let e8 = optional_text_entry("instanceId"@, v.instance_id);
        lemma_keys_among_one(e8, "instanceId"@, keys, 7);
        lemma_keys_among_concat(e1, e2, keys);
        lemma_keys_among_concat(e1 + e2, e3, keys);
        lemma_keys_among_concat(e1 + e2 + e3, e4, keys);
        lemma_keys_among_concat(e1 + e2 + e3 + e4, e5, keys);
        lemma_keys_among_concat(e1 + e2 + e3 + e4 + e5, e6, keys);
        lemma_keys_among_concat(e1 + e2 + e3 + e4 + e5 + e6, e7, keys);
        lemma_keys_among_concat(e1 + e2 + e3 + e4 + e5 + e6 + e7, e8, keys);
        lemma_other_fields_follow(e1 + e2 + e3 + e4 + e5 + e6 + e7 + e8, o, keys, key);
    }
}

impl ConnectClient {
    /// The keys of the declared fields.
    pub fn keys() -> (r: Vec<&'static str>)
        ensures
            r.deep_view() == ConnectClientModel::keys(),
    {
        let r = vec![
            "id", "version", "platform", "mode", "displayName", "deviceFamily", "modelIdentifier",
            "instanceId",
        ];
        assert(r.deep_view() =~= ConnectClientModel::keys());
        r
    }

    /// Decodes a document; the fields that the type does not declare are
    /// kept in `extra`.
    pub fn decode(value: &JsonValue) -> (r: Option<ConnectClient>)
        ensures
            r.deep_view() == ConnectClientModel::decoded(value@),
    {
        let o = match value {
            JsonValue::Object(o) => o,
            _ => {
                return None;
            },
        };
        let id = required_text(o, "id")?;
        let version = optional_text(o, "version")?;
        let platform = optional_text(o, "platform")?;
        let mode = optional_text(o, "mode")?;
        let display_name = optional_text(o, "displayName")?;
        let device_family = optional_text(o, "deviceFamily")?;
        let model_identifier = optional_text(o, "modelIdentifier")?;
        let instance_id = optional_text(o, "instanceId")?;
        let extra = o.without(&Self::keys());
        Some(
            ConnectClient {
                id,
                version,
                platform,
                mode,
                display_name,
                device_family,
                model_identifier,
                instance_id,
                extra,
            },
        )
    }

    /// Encodes the value as a document.
    pub fn encode(&self) -> (r: JsonValue)
        ensures
            r@ == self.deep_view().encoded(),
    {
        let mut o = JsonObject::new();
        put_text(&mut o, "id", &self.id);
        put_optional_text(&mut o, "version", &self.version);
        put_optional_text(&mut o, "platform", &self.platform);
        put_optional_text(&mut o, "mode", &self.mode);
        put_optional_text(&mut o, "displayName", &self.display_name);
        put_optional_text(&mut o, "deviceFamily", &self.device_family);
        put_optional_text(&mut o, "modelIdentifier", &self.model_identifier);
        put_optional_text(&mut o, "instanceId", &self.instance_id);
        o.extend(&self.extra);
        let r = JsonValue::Object(o);
        assert(r@->Object_0 =~= self.deep_view().encoded()->Object_0);
        r
    }
}

/// The credentials of a connecting client.
#[derive(Debug, PartialEq, Eq)]
pub struct ConnectAuth {
    pub token: Option<String>,
    pub password: Option<String>,
    /// The fields that the type does not declare.
    pub extra: JsonObject,
}

/// The model of [`ConnectAuth`].
pub struct ConnectAuthModel {
    pub token: Option<Seq<char>>,
    pub password: Option<Seq<char>>,
    pub extra: ObjectModel,
}

impl DeepView for ConnectAuth {
    type V = ConnectAuthModel;

    open spec fn deep_view(&self) -> ConnectAuthModel {
        ConnectAuthModel {
            token: self.token.deep_view(),
            password: self.password.deep_view(),
            extra: self.extra.deep_view(),
        }
    }
}

impl ConnectAuthModel {
    /// The keys of the declared fields.
    pub open spec fn keys() -> Seq<Seq<char>> {
        seq!["token"@, "password"@]
    }

    /// What a document decodes to: nothing unless it is an object whose
    /// declared fields all have their types.
    pub open spec fn decoded(m: JsonModel) -> Option<ConnectAuthModel> {
        match m {
            JsonModel::Object(o) => {
                let token = optional(o, "token"@, |m: JsonModel| text_of(m));
                let password = optional(o, "password"@, |m: JsonModel| text_of(m));
                if token is Some && password is Some {
                    Some(
                        ConnectAuthModel {
                            token: token->0,
                            password: password->0,
                            extra: without_keys(o, Self::keys()),
                        },
                    )
                } else {
                    None
                }
            },
            _ => None,
        }
    }

    /// The document that a value is written as: the declared fields in
    /// order, then the others.
    pub open spec fn encoded(self) -> JsonModel {
        JsonModel::Object(
            optional_text_entry("token"@, self.token)
                + optional_text_entry("password"@, self.password)
                + self.extra,
        )
    }

    /// The document of an optional value.
    pub open spec fn encoded_optional(value: Option<ConnectAuthModel>) -> Option<JsonModel> {
        match value {
            Some(v) => Some(v.encoded()),
            None => None,
        }
    }

    /// A field that the type does not declare is written back as it was
    /// read.
    pub proof fn lemma_other_fields_survive(m: JsonModel, key: Seq<char>)
        requires
            Self::decoded(m) is Some,
            !Self::keys().contains(key),
        ensures
            m is Object,
            lookup(Self::decoded(m)->0.encoded()->Object_0, key) == lookup(m->Object_0, key),
    {
        let o = m->Object_0;
        let v = Self::decoded(m)->0;
        let keys = Self::keys();
        let e1 = optional_text_entry("token"@, v.token);
        lemma_keys_among_one(e1, "token"@, keys, 0);
        let e2 = optional_text_entry("password"@, v.password);
        lemma_keys_among_one(e2, "password"@, keys, 1);
        lemma_keys_among_concat(e1, e2, keys);
        lemma_other_fields_follow(e1 + e2, o, keys, key);
    }
}

impl ConnectAuth {
    /// The keys of the declared fields.
    pub fn keys() -> (r: Vec<&'static str>)
        ensures
            r.deep_view() == ConnectAuthModel::keys(),
    {
        let r = vec!["token", "password"];
        assert(r.deep_view() =~= ConnectAuthModel::keys());
        r
    }

    /// Decodes a document; the fields that the type does not declare are
    /// kept in `extra`.
    pub fn decode(value: &JsonValue) -> (r: Option<ConnectAuth>)
        ensures
            r.deep_view() == ConnectAuthModel::decoded(value@),
    {
        let o = match value {
            JsonValue::Object(o) => o,
            _ => {
                return None;
            },
        };
        let token = optional_text(o, "token")?;
        let password = optional_text(o, "password")?;
        let extra = o.without(&Self::keys());
        Some(ConnectAuth { token, password, extra })
    }

    /// Encodes the value as a document.
    pub fn encode(&self) -> (r: JsonValue)
        ensures
            r@ == self.deep_view().encoded(),
    {
        let mut o = JsonObject::new();
        put_optional_text(&mut o, "token", &self.token);
        put_optional_text(&mut o, "password", &self.password);
        o.extend(&self.extra);
        let r = JsonValue::Object(o);
        assert(r@->Object_0 =~= self.deep_view().encoded()->Object_0);
        r
    }
}

/// The device identity of a connecting client.
#[derive(Debug, PartialEq, Eq)]
pub struct ConnectDevice {
    pub id: Option<String>,
    pub public_key: Option<String>,
    pub signature: Option<String>,
    pub signed_at: Option<i64>,
    pub nonce: Option<String>,
    /// The fields that the type does not declare.
    pub extra: JsonObject,
}

/// The model of [`ConnectDevice`].
pub struct ConnectDeviceModel {
    pub id: Option<Seq<char>>,
    pub public_key: Option<Seq<char>>,
    pub signature: Option<Seq<char>>,
    pub signed_at: Option<i64>,
    pub nonce: Option<Seq<char>>,
    pub extra: ObjectModel,
}

impl DeepView for ConnectDevice {
    type V = ConnectDeviceModel;

    open spec fn deep_view(&self) -> ConnectDeviceModel {
        ConnectDeviceModel {
            id: self.id.deep_view(),
            public_key: self.public_key.deep_view(),
            signature: self.signature.deep_view(),
            signed_at: self.signed_at.deep_view(),
            nonce: self.nonce.deep_view(),
            extra: self.extra.deep_view(),
        }
    }
}

impl ConnectDeviceModel {
    /// The keys of the declared fields.
    pub open spec fn keys() -> Seq<Seq<char>> {
        seq!["id"@, "publicKey"@, "signature"@, "signedAt"@, "nonce"@]
    }

    /// What a document decodes to: nothing unless it is an object whose
    /// declared fields all have their types.
    pub open spec fn decoded(m: JsonModel) -> Option<ConnectDeviceModel> {
        match m {
            JsonModel::Object(o) => {
                let id = optional(o, "id"@, |m: JsonModel| text_of(m));
                let public_key = optional(o, "publicKey"@, |m: JsonModel| text_of(m));
                let signature = optional(o, "signature"@, |m: JsonModel| text_of(m));
                let signed_at = optional(o, "signedAt"@, |m: JsonModel| i64_of(m));
                let nonce = optional(o, "nonce"@, |m: JsonModel| text_of(m));
                if id is Some && public_key is Some && signature is Some && signed_at is Some
                    && nonce is Some {
                    Some(
                        ConnectDeviceModel {
                            id: id->0,
                            public_key: public_key->0,
                            signature: signature->0,
                            signed_at: signed_at->0,
                            nonce: nonce->0,
                            extra: without_keys(o, Self::keys()),
                        },
                    )
                } else {
                    None
                }
            },
            _ => None,
        }
    }

    /// The document that a value is written as: the declared fields in
    /// order, then the others.
    pub open spec fn encoded(self) -> JsonModel {
        JsonModel::Object(
            optional_text_entry("id"@, self.id)
                + optional_text_entry("publicKey"@, self.public_key)
                + optional_text_entry("signature"@, self.signature)
                + optional_i64_entry("signedAt"@, self.signed_at)
                + optional_text_entry("nonce"@, self.nonce)
                + self.extra,
        )
    }

    /// The document of an optional value.
    pub open spec fn encoded_optional(value: Option<ConnectDeviceModel>) -> Option<JsonModel> {
        match value {
            Some(v) => Some(v.encoded()),
            None => None,
        }
    }

    /// A field that the type does not declare is written back as it was
    /// read.
    pub proof fn lemma_other_fields_survive(m: JsonModel, key: Seq<char>)
        requires
            Self::decoded(m) is Some,
            !Self::keys().contains(key),
        ensures
            m is Object,
            lookup(Self::decoded(m)->0.encoded()->Object_0, key) == lookup(m->Object_0, key),
    {
        let o = m->Object_0;
        let v = Self::decoded(m)->0;
        let keys = Self::keys();
        let e1 = optional_text_entry("id"@, v.id);
        lemma_keys_among_one(e1, "id"@, keys, 0);
        let e2 = optional_text_entry("publicKey"@, v.public_key);
        lemma_keys_among_one(e2, "publicKey"@, keys, 1);
        let e3 = optional_text_entry("signature"@, v.signature);
        lemma_keys_among_one(e3, "signature"@, keys, 2);
        let e4 = optional_i64_entry("signedAt"@, v.signed_at);
        lemma_keys_among_one(e4, "signedAt"@, keys, 3);
        let e5 = optional_text_entry("nonce"@, v.nonce);
        lemma_keys_among_one(e5, "nonce"@, keys, 4);
        lemma_keys_among_concat(e1, e2, keys);
        lemma_keys_among_concat(e1 + e2, e3, keys);
        lemma_keys_among_concat(e1 + e2 + e3, e4, keys);
        lemma_keys_among_concat(e1 + e2 + e3 + e4, e5, keys);
        lemma_other_fields_follow(e1 + e2 + e3 + e4 + e5, o, keys, key);
    }
}

impl ConnectDevice {
    /// The keys of the declared fields.
    pub fn keys() -> (r: Vec<&'static str>)
        ensures
            r.deep_view() == ConnectDeviceModel::keys(),
    {
        let r = vec!["id", "publicKey", "signature", "signedAt", "nonce"];
        assert(r.deep_view() =~= ConnectDeviceModel::keys());
        r
    }

    /// Decodes a document; the fields that the type does not declare are
    /// kept in `extra`.
    pub fn decode(value: &JsonValue) -> (r: Option<ConnectDevice>)
        ensures
            r.deep_view() == ConnectDeviceModel::decoded(value@),
    {
        let o = match value {
            JsonValue::Object(o) => o,
            _ => {
                return None;
            },
        };
        let id = optional_text(o, "id")?;
        let public_key = optional_text(o, "publicKey")?;
        let signature = optional_text(o, "signature")?;
        let signed_at = optional_i64(o, "signedAt")?;
        let nonce = optional_text(o, "nonce")?;
        let extra = o.without(&Self::keys());
        Some(ConnectDevice { id, public_key, signature, signed_at, nonce, extra })
    }

    /// Encodes the value as a document.
    pub fn encode(&self) -> (r: JsonValue)
        ensures
            r@ == self.deep_view().encoded(),
    {
        let mut o = JsonObject::new();
        put_optional_text(&mut o, "id", &self.id);
        put_optional_text(&mut o, "publicKey", &self.public_key);
        put_optional_text(&mut o, "signature", &self.signature);
        put_optional_i64(&mut o, "signedAt", &self.signed_at);
        put_optional_text(&mut o, "nonce", &self.nonce);
        o.extend(&self.extra);
        let r = JsonValue::Object(o);
        assert(r@->Object_0 =~= self.deep_view().encoded()->Object_0);
        r
    }
}

/// The parameters of the `connect` request.
#[derive(Debug, PartialEq, Eq)]
pub struct ConnectParams {
    pub min_protocol: Option<u32>,
    pub max_protocol: Option<u32>,
    pub client: Option<ConnectClient>,
    pub role: Option<String>,
    pub scopes: Vec<String>,
    pub caps: Vec<String>,
    pub commands: Vec<String>,
    pub permissions: Vec<(String, bool)>,
    pub auth: Option<ConnectAuth>,
    pub locale: Option<String>,
    pub user_agent: Option<String>,
    pub device: Option<ConnectDevice>,
    /// The fields that the type does not declare.
    pub extra: JsonObject,
}

/// The model of [`ConnectParams`].
pub struct ConnectParamsModel {
    pub min_protocol: Option<u32>,
    pub max_protocol: Option<u32>,
    pub client: Option<ConnectClientModel>,
    pub role: Option<Seq<char>>,
    pub scopes: Seq<Seq<char>>,
    pub caps: Seq<Seq<char>>,
    pub commands: Seq<Seq<char>>,
    pub permissions: Seq<(Seq<char>, bool)>,
    pub auth: Option<ConnectAuthModel>,
    pub locale: Option<Seq<char>>,
    pub user_agent: Option<Seq<char>>,
    pub device: Option<ConnectDeviceModel>,
    pub extra: ObjectModel,
}

impl DeepView for ConnectParams {
    type V = ConnectParamsModel;

    open spec fn deep_view(&self) -> ConnectParamsModel {
        ConnectParamsModel {
            min_protocol: self.min_protocol.deep_view(),
            max_protocol: self.max_protocol.deep_view(),
            client: self.client.deep_view(),
            role: self.role.deep_view(),
            scopes: self.scopes.deep_view(),
            caps: self.caps.deep_view(),
            commands: self.commands.deep_view(),
            permissions: self.permissions.deep_view(),
            auth: self.auth.deep_view(),
            locale: self.locale.deep_view(),
            user_agent: self.user_agent.deep_view(),
            device: self.device.deep_view(),
            extra: self.extra.deep_view(),
        }
    }
}

impl ConnectParamsModel {
    /// The keys of the declared fields.
    pub open spec fn keys() -> Seq<Seq<char>> {
        seq![
            "minProtocol"@, "maxProtocol"@, "client"@, "role"@, "scopes"@, "caps"@, "commands"@,
            "permissions"@, "auth"@, "locale"@, "userAgent"@, "device"@,
        ]
    }

    /// What a document decodes to: nothing unless it is an object whose
    /// declared fields all have their types.
    pub open spec fn decoded(m: JsonModel) -> Option<ConnectParamsModel> {
        match m {
            JsonModel::Object(o) => {
                let min_protocol = optional(o, "minProtocol"@, |m: JsonModel| u32_of(m));
                let max_protocol = optional(o, "maxProtocol"@, |m: JsonModel| u32_of(m));
                let client = optional(o, "client"@, |m: JsonModel| ConnectClientModel::decoded(m));
                let role = optional(o, "role"@, |m: JsonModel| text_of(m));
                let scopes = defaulted(o, "scopes"@, |m: JsonModel| texts_of(m), Seq::empty());
                let caps = defaulted(o, "caps"@, |m: JsonModel| texts_of(m), Seq::empty());
                let commands = defaulted(o, "commands"@, |m: JsonModel| texts_of(m), Seq::empty());
                let permissions = defaulted(
                    o,
                    "permissions"@,
                    |m: JsonModel| flags_of(m),
                    Seq::empty(),
                );
                let auth = optional(o, "auth"@, |m: JsonModel| ConnectAuthModel::decoded(m));
                let locale = optional(o, "locale"@, |m: JsonModel| text_of(m));
                let user_agent = optional(o, "userAgent"@, |m: JsonModel| text_of(m));
                let device = optional(o, "device"@, |m: JsonModel| ConnectDeviceModel::decoded(m));
                if min_protocol is Some && max_protocol is Some && client is Some
                    && role is Some && scopes is Some && caps is Some && commands is Some
                    && permissions is Some && auth is Some && locale is Some && user_agent is Some
                    && device is Some {
                    Some(
                        ConnectParamsModel {
                            min_protocol: min_protocol->0,
                            max_protocol: max_protocol->0,
                            client: client->0,
                            role: role->0,
                            scopes: scopes->0,
                            caps: caps->0,
                            commands: commands->0,
                            permissions: permissions->0,
                            auth: auth->0,
                            locale: locale->0,
                            user_agent: user_agent->0,
                            device: device->0,
                            extra: without_keys(o, Self::keys()),
                        },
                    )
                } else {
                    None
                }
            },
            _ => None,
        }
    }

    /// The document that a value is written as: the declared fields in
    /// order, then the others.
    pub open spec fn encoded(self) -> JsonModel {
        JsonModel::Object(
            optional_u32_entry("minProtocol"@, self.min_protocol)
                + optional_u32_entry("maxProtocol"@, self.max_protocol)
                + optional_entry("client"@, ConnectClientModel::encoded_optional(self.client))
                + optional_text_entry("role"@, self.role)
                + texts_entry("scopes"@, self.scopes)
                + texts_entry("caps"@, self.caps)
                + texts_entry("commands"@, self.commands)
                + flags_entry("permissions"@, self.permissions)
                + optional_entry("auth"@, ConnectAuthModel::encoded_optional(self.auth))
                + optional_text_entry("locale"@, self.locale)
                + optional_text_entry("userAgent"@, self.user_agent)
                + optional_entry("device"@, ConnectDeviceModel::encoded_optional(self.device))
                + self.extra,
        )
    }

    /// The document of an optional value.
    pub open spec fn encoded_optional(value: Option<ConnectParamsModel>) -> Option<JsonModel> {
        match value {
            Some(v) => Some(v.encoded()),
            None => None,
        }
    }

    /// A field that the type does not declare is written back as it was
    /// read.
    pub proof fn lemma_other_fields_survive(m: JsonModel, key: Seq<char>)
        requires
            Self::decoded(m) is Some,
            !Self::keys().contains(key),
        ensures
            m is Object,
            lookup(Self::decoded(m)->0.encoded()->Object_0, key) == lookup(m->Object_0, key),
    {
        let o = m->Object_0;
        let v = Self::decoded(m)->0;
        let keys = Self::keys();
        let e1 = optional_u32_entry("minProtocol"@, v.min_protocol);
        lemma_keys_among_one(e1, "minProtocol"@, keys, 0);
        let e2 = optional_u32_entry("maxProtocol"@, v.max_protocol);
        lemma_keys_among_one(e2, "maxProtocol"@, keys, 1);
        let e3 = optional_entry("client"@, ConnectClientModel::encoded_optional(v.client));
        lemma_keys_among_one(e3, "client"@, keys, 2);
        let e4 = optional_text_entry("role"@, v.role);
        lemma_keys_among_one(e4, "role"@, keys, 3);
        let e5 = texts_entry("scopes"@, v.scopes);
        lemma_keys_among_one(e5, "scopes"@, keys, 4);
        let e6 = texts_entry("caps"@, v.caps);
        lemma_keys_among_one(e6, "caps"@, keys, 5);
        let e7 = texts_entry("commands"@, v.commands);
        lemma_keys_among_one(e7, "commands"@, keys, 6);
        let e8 = flags_entry("permissions"@, v.permissions);
        lemma_keys_among_one(e8, "permissions"@, keys, 7);
        let e9 = optional_entry("auth"@, ConnectAuthModel::encoded_optional(v.auth));
        lemma_keys_among_one(e9, "auth"@, keys, 8);
        let e10 = optional_text_entry("locale"@, v.locale);
        lemma_keys_among_one(e10, "locale"@, keys, 9);
        let e11 = optional_text_entry("userAgent"@, v.user_agent);
        lemma_keys_among_one(e11, "userAgent"@, keys, 10);
        let e12 = optional_entry("device"@, ConnectDeviceModel::encoded_optional(v.device));
        lemma_keys_among_one(e12, "device"@, keys, 11);
        lemma_keys_among_concat(e1, e2, keys);
        lemma_keys_among_concat(e1 + e2, e3, keys);
        lemma_keys_among_concat(e1 + e2 + e3, e4, keys);
        lemma_keys_among_concat(e1 + e2 + e3 + e4, e5, keys);
        lemma_keys_among_concat(e1 + e2 + e3 + e4 + e5, e6, keys);
        lemma_keys_among_concat(e1 + e2 + e3 + e4 + e5 + e6, e7, keys);
        lemma_keys_among_concat(e1 + e2 + e3 + e4 + e5 + e6 + e7, e8, keys);
        lemma_keys_among_concat(e1 + e2 + e3 + e4 + e5 + e6 + e7 + e8, e9, keys);
        lemma_keys_among_concat(e1 + e2 + e3 + e4 + e5 + e6 + e7 + e8 + e9, e10, keys);
        lemma_keys_among_concat(e1 + e2 + e3 + e4 + e5 + e6 + e7 + e8 + e9 + e10, e11, keys);
        lemma_keys_among_concat(e1 + e2 + e3 + e4 + e5 + e6 + e7 + e8 + e9 + e10 + e11, e12, keys);
        lemma_other_fields_follow(
            e1 + e2 + e3 + e4 + e5 + e6 + e7 + e8 + e9 + e10 + e11 + e12,
            o,
            keys,
            key,
        );
    }
}

impl ConnectParams {
    /// The keys of the declared fields.
    pub fn keys() -> (r: Vec<&'static str>)
        ensures
            r.deep_view() == ConnectParamsModel::keys(),
    {
        let r = vec![
            "minProtocol", "maxProtocol", "client", "role", "scopes", "caps", "commands",
            "permissions", "auth", "locale", "userAgent", "device",
        ];
        assert(r.deep_view() =~= ConnectParamsModel::keys());
        r
    }

    /// Decodes a document; the fields that the type does not declare are
    /// kept in `extra`.
    pub fn decode(value: &JsonValue) -> (r: Option<ConnectParams>)
        ensures
            r.deep_view() == ConnectParamsModel::decoded(value@),
    {
        let o = match value {
            JsonValue::Object(o) => o,
            _ => {
                return None;
            },
        };
        let min_protocol = optional_u32(o, "minProtocol")?;
        let max_protocol = optional_u32(o, "maxProtocol")?;
        let client = match o.get("client") {
            None => None,
            Some(JsonValue::Null) => None,
            Some(v) => Some(ConnectClient::decode(v)?),
        };
        let role = optional_text(o, "role")?;
        let scopes = defaulted_texts(o, "scopes")?;
        let caps = defaulted_texts(o, "caps")?;
        let commands = defaulted_texts(o, "commands")?;
        let permissions = defaulted_flags(o, "permissions")?;
        let auth = match o.get("auth") {
            None => None,
            Some(JsonValue::Null) => None,
            Some(v) => Some(ConnectAuth::decode(v)?),
        };
        let locale = optional_text(o, "locale")?;
        let user_agent = optional_text(o, "userAgent")?;
        let device = match o.get("device") {
            None => None,
            Some(JsonValue::Null) => None,
            Some(v) => Some(ConnectDevice::decode(v)?),
        };
        let extra = o.without(&Self::keys());
        Some(
            ConnectParams {
                min_protocol,
                max_protocol,
                client,
                role,
                scopes,
                caps,
                commands,
                permissions,
                auth,
                locale,
                user_agent,
                device,
                extra,
            },
        )
    }

    /// Encodes the value as a document.
    pub fn encode(&self) -> (r: JsonValue)
        ensures
            r@ == self.deep_view().encoded(),
    {
        let mut o = JsonObject::new();
        put_optional_u32(&mut o, "minProtocol", &self.min_protocol);
        put_optional_u32(&mut o, "maxProtocol", &self.max_protocol);
        match &self.client {
            Some(v) => {
                put_json(&mut o, "client", v.encode());
            },
            None => {},
        }
        put_optional_text(&mut o, "role", &self.role);
        put_texts(&mut o, "scopes", &self.scopes);
        put_texts(&mut o, "caps", &self.caps);
        put_texts(&mut o, "commands", &self.commands);
        put_flags(&mut o, "permissions", &self.permissions);
        match &self.auth {
            Some(v) => {
                put_json(&mut o, "auth", v.encode());
            },
            None => {},
        }
        put_optional_text(&mut o, "locale", &self.locale);
        put_optional_text(&mut o, "userAgent", &self.user_agent);
        match &self.device {
            Some(v) => {
                put_json(&mut o, "device", v.encode());
            },
            None => {},
        }
        o.extend(&self.extra);
        let r = JsonValue::Object(o);
        assert(r@->Object_0 =~= self.deep_view().encoded()->Object_0);
        r
    }
}

/// The challenge that the gateway sends before `connect`.
#[derive(Debug, PartialEq, Eq)]
pub struct ConnectChallenge {
    pub nonce: String,
    pub ts: i64,
    /// The fields that the type does not declare.
    pub extra: JsonObject,
}

/// The model of [`ConnectChallenge`].
pub struct ConnectChallengeModel {
    pub nonce: Seq<char>,
    pub ts: i64,
    pub extra: ObjectModel,
}

impl DeepView for ConnectChallenge {
    type V = ConnectChallengeModel;

    open spec fn deep_view(&self) -> ConnectChallengeModel {
        ConnectChallengeModel {
            nonce: self.nonce.deep_view(),
            ts: self.ts.deep_view(),
            extra: self.extra.deep_view(),
        }
    }
}

impl ConnectChallengeModel {
    /// The keys of the declared fields.
    pub open spec fn keys() -> Seq<Seq<char>> {
        seq!["nonce"@, "ts"@]
    }

    /// What a document decodes to: nothing unless it is an object whose
    /// declared fields all have their types.
    pub open spec fn decoded(m: JsonModel) -> Option<ConnectChallengeModel> {
        match m {
            JsonModel::Object(o) => {
                let nonce = required(o, "nonce"@, |m: JsonModel| text_of(m));
                let ts = required(o, "ts"@, |m: JsonModel| i64_of(m));
                if nonce is Some && ts is Some {
                    Some(
                        ConnectChallengeModel {
                            nonce: nonce->0,
                            ts: ts->0,
                            extra: without_keys(o, Self::keys()),
                        },
                    )
                } else {
                    None
                }
            },
            _ => None,
        }
    }

    /// The document that a value is written as: the declared fields in
    /// order, then the others.
    pub open spec fn encoded(self) -> JsonModel {
        JsonModel::Object(
            text_entry("nonce"@, self.nonce)
                + i64_entry("ts"@, self.ts)
                + self.extra,
        )
    }

    /// The document of an optional value.
    pub open spec fn encoded_optional(value: Option<ConnectChallengeModel>) -> Option<JsonModel> {
        match value {
            Some(v) => Some(v.encoded()),
            None => None,
        }
    }

    /// A field that the type does not declare is written back as it was
    /// read.
    pub proof fn lemma_other_fields_survive(m: JsonModel, key: Seq<char>)
        requires
            Self::decoded(m) is Some,
            !Self::keys().contains(key),
        ensures
            m is Object,
            lookup(Self::decoded(m)->0.encoded()->Object_0, key) == lookup(m->Object_0, key),
    {
        let o = m->Object_0;
        let v = Self::decoded(m)->0;
        let keys = Self::keys();
        let e1 = text_entry("nonce"@, v.nonce);
        lemma_keys_among_one(e1, "nonce"@, keys, 0);
        let e2 = i64_entry("ts"@, v.ts);
        lemma_keys_among_one(e2, "ts"@, keys, 1);
        lemma_keys_among_concat(e1, e2, keys);
        lemma_other_fields_follow(e1 + e2, o, keys, key);
    }
}

impl ConnectChallenge {
    /// The keys of the declared fields.
    pub fn keys() -> (r: Vec<&'static str>)
        ensures
            r.deep_view() == ConnectChallengeModel::keys(),
    {
        let r = vec!["nonce", "ts"];
        assert(r.deep_view() =~= ConnectChallengeModel::keys());
        r
    }

    /// Decodes a document; the fields that the type does not declare are
    /// kept in `extra`.
    pub fn decode(value: &JsonValue) -> (r: Option<ConnectChallenge>)
        ensures
            r.deep_view() == ConnectChallengeModel::decoded(value@),
    {
        let o = match value {
            JsonValue::Object(o) => o,
            _ => {
                return None;
            },
        };
        let nonce = required_text(o, "nonce")?;
        let ts = required_i64(o, "ts")?;
        let extra = o.without(&Self::keys());
        Some(ConnectChallenge { nonce, ts, extra })
    }

    /// Encodes the value as a document.
    pub fn encode(&self) -> (r: JsonValue)
        ensures
            r@ == self.deep_view().encoded(),
    {
        let mut o = JsonObject::new();
        put_text(&mut o, "nonce", &self.nonce);
        put_i64(&mut o, "ts", &self.ts);
        o.extend(&self.extra);
        let r = JsonValue::Object(o);
        assert(r@->Object_0 =~= self.deep_view().encoded()->Object_0);
        r
    }
}

/// The policy that the gateway announces.
#[derive(Debug, PartialEq, Eq)]
pub struct HelloPolicy {
    pub tick_interval_ms: Option<u64>,
    /// The fields that the type does not declare.
    pub extra: JsonObject,
}

/// The model of [`HelloPolicy`].
pub struct HelloPolicyModel {
    pub tick_interval_ms: Option<u64>,
    pub extra: ObjectModel,
}

impl DeepView for HelloPolicy {
    type V = HelloPolicyModel;

    open spec fn deep_view(&self) -> HelloPolicyModel {
        HelloPolicyModel {
            tick_interval_ms: self.tick_interval_ms.deep_view(),
            extra: self.extra.deep_view(),
        }
    }
}

impl HelloPolicyModel {
    /// The keys of the declared fields.
    pub open spec fn keys() -> Seq<Seq<char>> {
        seq!["tickIntervalMs"@]
    }

    /// What a document decodes to: nothing unless it is an object whose
    /// declared fields all have their types.
    pub open spec fn decoded(m: JsonModel) -> Option<HelloPolicyModel> {
        match m {
            JsonModel::Object(o) => {
                let tick_interval_ms = optional(o, "tickIntervalMs"@, |m: JsonModel| u64_of(m));
                if tick_interval_ms is Some {
                    Some(
                        HelloPolicyModel {
                            tick_interval_ms: tick_interval_ms->0,
                            extra: without_keys(o, Self::keys()),
                        },
                    )
                } else {
                    None
                }
            },
            _ => None,
        }
    }

    /// The document that a value is written as: the declared fields in
    /// order, then the others.
    pub open spec fn encoded(self) -> JsonModel {
        JsonModel::Object(
            optional_u64_entry("tickIntervalMs"@, self.tick_interval_ms)
                + self.extra,
        )
    }

    /// The document of an optional value.
    pub open spec fn encoded_optional(value: Option<HelloPolicyModel>) -> Option<JsonModel> {
        match value {
            Some(v) => Some(v.encoded()),
            None => None,
        }
    }

    /// A field that the type does not declare is written back as it was
    /// read.
    pub proof fn lemma_other_fields_survive(m: JsonModel, key: Seq<char>)
        requires
            Self::decoded(m) is Some,
            !Self::keys().contains(key),
        ensures
            m is Object,
            lookup(Self::decoded(m)->0.encoded()->Object_0, key) == lookup(m->Object_0, key),
    {
        let o = m->Object_0;
        let v = Self::decoded(m)->0;
        let keys = Self::keys();
        let e1 = optional_u64_entry("tickIntervalMs"@, v.tick_interval_ms);
        lemma_keys_among_one(e1, "tickIntervalMs"@, keys, 0);
        lemma_other_fields_follow(e1, o, keys, key);
    }
}

impl HelloPolicy {
    /// The keys of the declared fields.
    pub fn keys() -> (r: Vec<&'static str>)
        ensures
            r.deep_view() == HelloPolicyModel::keys(),
    {
        let r = vec!["tickIntervalMs"];
        assert(r.deep_view() =~= HelloPolicyModel::keys());
        r
    }

    /// Decodes a document; the fields that the type does not declare are
    /// kept in `extra`.
    pub fn decode(value: &JsonValue) -> (r: Option<HelloPolicy>)
        ensures
            r.deep_view() == HelloPolicyModel::decoded(value@),
    {
        let o = match value {
            JsonValue::Object(o) => o,
            _ => {
                return None;
            },
        };
        let tick_interval_ms = optional_u64(o, "tickIntervalMs")?;
        let extra = o.without(&Self::keys());
        Some(HelloPolicy { tick_interval_ms, extra })
    }

    /// Encodes the value as a document.
    pub fn encode(&self) -> (r: JsonValue)
        ensures
            r@ == self.deep_view().encoded(),
    {
        let mut o = JsonObject::new();
        put_optional_u64(&mut o, "tickIntervalMs", &self.tick_interval_ms);
        o.extend(&self.extra);
        let r = JsonValue::Object(o);
        assert(r@->Object_0 =~= self.deep_view().encoded()->Object_0);
        r
    }
}

/// What the gateway grants a client.
#[derive(Debug, PartialEq, Eq)]
pub struct HelloAuth {
    pub device_token: Option<String>,
    pub role: Option<String>,
    pub scopes: Vec<String>,
    /// The fields that the type does not declare.
    pub extra: JsonObject,
}

/// The model of [`HelloAuth`].
pub struct HelloAuthModel {
    pub device_token: Option<Seq<char>>,
    pub role: Option<Seq<char>>,
    pub scopes: Seq<Seq<char>>,
    pub extra: ObjectModel,
}

impl DeepView for HelloAuth {
    type V = HelloAuthModel;

    open spec fn deep_view(&self) -> HelloAuthModel {
        HelloAuthModel {
            device_token: self.device_token.deep_view(),
            role: self.role.deep_view(),
            scopes: self.scopes.deep_view(),
            extra: self.extra.deep_view(),
        }
    }
}

impl HelloAuthModel {
    /// The keys of the declared fields.
    pub open spec fn keys() -> Seq<Seq<char>> {
        seq!["deviceToken"@, "role"@, "scopes"@]
    }

    /// What a document decodes to: nothing unless it is an object whose
    /// declared fields all have their types.
    pub open spec fn decoded(m: JsonModel) -> Option<HelloAuthModel> {
        match m {
            JsonModel::Object(o) => {
                let device_token = optional(o, "deviceToken"@, |m: JsonModel| text_of(m));
                let role = optional(o, "role"@, |m: JsonModel| text_of(m));
                let scopes = defaulted(o, "scopes"@, |m: JsonModel| texts_of(m), Seq::empty());
                if device_token is Some && role is Some && scopes is Some {
                    Some(
                        HelloAuthModel {
                            device_token: device_token->0,
                            role: role->0,
                            scopes: scopes->0,
                            extra: without_keys(o, Self::keys()),
                        },
                    )
                } else {
                    None
                }
            },
            _ => None,
        }
    }

    /// The document that a value is written as: the declared fields in
    /// order, then the others.
    pub open spec fn encoded(self) -> JsonModel {
        JsonModel::Object(
            optional_text_entry("deviceToken"@, self.device_token)
                + optional_text_entry("role"@, self.role)
                + texts_entry("scopes"@, self.scopes)
                + self.extra,
        )
    }

    /// The document of an optional value.
    pub open spec fn encoded_optional(value: Option<HelloAuthModel>) -> Option<JsonModel> {
        match value {
            Some(v) => Some(v.encoded()),
            None => None,
        }
    }

    /// A field that the type does not declare is written back as it was
    /// read.
    pub proof fn lemma_other_fields_survive(m: JsonModel, key: Seq<char>)
        requires
            Self::decoded(m) is Some,
            !Self::keys().contains(key),
        ensures
            m is Object,
            lookup(Self::decoded(m)->0.encoded()->Object_0, key) == lookup(m->Object_0, key),
    {
        let o = m->Object_0;
        let v = Self::decoded(m)->0;
        let keys = Self::keys();
        let e1 = optional_text_entry("deviceToken"@, v.device_token);
        lemma_keys_among_one(e1, "deviceToken"@, keys, 0);
        let e2 = optional_text_entry("role"@, v.role);
        lemma_keys_among_one(e2, "role"@, keys, 1);
        let e3 = texts_entry("scopes"@, v.scopes);
        lemma_keys_among_one(e3, "scopes"@, keys, 2);
        lemma_keys_among_concat(e1, e2, keys);
        lemma_keys_among_concat(e1 + e2, e3, keys);
        lemma_other_fields_follow(e1 + e2 + e3, o, keys, key);
    }
}

impl HelloAuth {
    /// The keys of the declared fields.
    pub fn keys() -> (r: Vec<&'static str>)
        ensures
            r.deep_view() == HelloAuthModel::keys(),
    {
        let r = vec!["deviceToken", "role", "scopes"];
        assert(r.deep_view() =~= HelloAuthModel::keys());
        r
    }

    /// Decodes a document; the fields that the type does not declare are
    /// kept in `extra`.
    pub fn decode(value: &JsonValue) -> (r: Option<HelloAuth>)
        ensures
            r.deep_view() == HelloAuthModel::decoded(value@),
    {
        let o = match value {
            JsonValue::Object(o) => o,
            _ => {
                return None;
            },
        };
        let device_token = optional_text(o, "deviceToken")?;
        let role = optional_text(o, "role")?;
        let scopes = defaulted_texts(o, "scopes")?;
        let extra = o.without(&Self::keys());
        Some(HelloAuth { device_token, role, scopes, extra })
    }

    /// Encodes the value as a document.
    pub fn encode(&self) -> (r: JsonValue)
        ensures
            r@ == self.deep_view().encoded(),
    {
        let mut o = JsonObject::new();
        put_optional_text(&mut o, "deviceToken", &self.device_token);
        put_optional_text(&mut o, "role", &self.role);
        put_texts(&mut o, "scopes", &self.scopes);
        o.extend(&self.extra);
        let r = JsonValue::Object(o);
        assert(r@->Object_0 =~= self.deep_view().encoded()->Object_0);
        r
    }
}

/// The answer to an accepted `connect` request.
#[derive(Debug, PartialEq, Eq)]
pub struct HelloOk {
    pub payload_type: String,
    pub protocol: Option<u32>,
    pub policy: Option<HelloPolicy>,
    pub auth: Option<HelloAuth>,
    /// The fields that the type does not declare.
    pub extra: JsonObject,
}

/// The model of [`HelloOk`].
pub struct HelloOkModel {
    pub payload_type: Seq<char>,
    pub protocol: Option<u32>,
    pub policy: Option<HelloPolicyModel>,
    pub auth: Option<HelloAuthModel>,
    pub extra: ObjectModel,
}

impl DeepView for HelloOk {
    type V = HelloOkModel;

    open spec fn deep_view(&self) -> HelloOkModel {
        HelloOkModel {
            payload_type: self.payload_type.deep_view(),
            protocol: self.protocol.deep_view(),
            policy: self.policy.deep_view(),
            auth: self.auth.deep_view(),
            extra: self.extra.deep_view(),
        }
    }
}

impl HelloOkModel {
    /// The keys of the declared fields.
    pub open spec fn keys() -> Seq<Seq<char>> {
        seq!["type"@, "protocol"@, "policy"@, "auth"@]
    }

    /// What a document decodes to: nothing unless it is an object whose
    /// declared fields all have their types.
    pub open spec fn decoded(m: JsonModel) -> Option<HelloOkModel> {
        match m {
            JsonModel::Object(o) => {
                let payload_type = required(o, "type"@, |m: JsonModel| text_of(m));
                let protocol = optional(o, "protocol"@, |m: JsonModel| u32_of(m));
                let policy = optional(o, "policy"@, |m: JsonModel| HelloPolicyModel::decoded(m));
                let auth = optional(o, "auth"@, |m: JsonModel| HelloAuthModel::decoded(m));
                if payload_type is Some && protocol is Some && policy is Some && auth is Some {
                    Some(
                        HelloOkModel {
                            payload_type: payload_type->0,
                            protocol: protocol->0,
                            policy: policy->0,
                            auth: auth->0,
                            extra: without_keys(o, Self::keys()),
                        },
                    )
                } else {
                    None
                }
            },
            _ => None,
        }
    }

    /// The document that a value is written as: the declared fields in
    /// order, then the others.
    pub open spec fn encoded(self) -> JsonModel {
        JsonModel::Object(
            text_entry("type"@, self.payload_type)
                + optional_u32_entry("protocol"@, self.protocol)
                + optional_entry("policy"@, HelloPolicyModel::encoded_optional(self.policy))
                + optional_entry("auth"@, HelloAuthModel::encoded_optional(self.auth))
                + self.extra,
        )
    }

    /// The document of an optional value.
    pub open spec fn encoded_optional(value: Option<HelloOkModel>) -> Option<JsonModel> {
        match value {
            Some(v) => Some(v.encoded()),
            None => None,
        }
    }

    /// A field that the type does not declare is written back as it was
    /// read.
    pub proof fn lemma_other_fields_survive(m: JsonModel, key: Seq<char>)
        requires
            Self::decoded(m) is Some,
            !Self::keys().contains(key),
        ensures
            m is Object,
            lookup(Self::decoded(m)->0.encoded()->Object_0, key) == lookup(m->Object_0, key),
    {
        let o = m->Object_0;
        let v = Self::decoded(m)->0;
        let keys = Self::keys();
        let e1 = text_entry("type"@, v.payload_type);
        lemma_keys_among_one(e1, "type"@, keys, 0);
        let e2 = optional_u32_entry("protocol"@, v.protocol);
        lemma_keys_among_one(e2, "protocol"@, keys, 1);
        let e3 = optional_entry("policy"@, HelloPolicyModel::encoded_optional(v.policy));
        lemma_keys_among_one(e3, "policy"@, keys, 2);
        let e4 = optional_entry("auth"@, HelloAuthModel::encoded_optional(v.auth));
        lemma_keys_among_one(e4, "auth"@, keys, 3);
        lemma_keys_among_concat(e1, e2, keys);
        lemma_keys_among_concat(e1 + e2, e3, keys);
        lemma_keys_among_concat(e1 + e2 + e3, e4, keys);
        lemma_other_fields_follow(e1 + e2 + e3 + e4, o, keys, key);
    }
}

impl HelloOk {
    /// The keys of the declared fields.
    pub fn keys() -> (r: Vec<&'static str>)
        ensures
            r.deep_view() == HelloOkModel::keys(),
    {
        let r = vec!["type", "protocol", "policy", "auth"];
        assert(r.deep_view() =~= HelloOkModel::keys());
        r
    }

    /// Decodes a document; the fields that the type does not declare are
    /// kept in `extra`.
    pub fn decode(value: &JsonValue) -> (r: Option<HelloOk>)
        ensures
            r.deep_view() == HelloOkModel::decoded(value@),
    {
        let o = match value {
            JsonValue::Object(o) => o,
            _ => {
                return None;
            },
        };
        let payload_type = required_text(o, "type")?;
        let protocol = optional_u32(o, "protocol")?;
        let policy = match o.get("policy") {
            None => None,
            Some(JsonValue::Null) => None,
            Some(v) => Some(HelloPolicy::decode(v)?),
        };
        let auth = match o.get("auth") {
            None => None,
            Some(JsonValue::Null) => None,
            Some(v) => Some(HelloAuth::decode(v)?),
        };
        let extra = o.without(&Self::keys());
        Some(HelloOk { payload_type, protocol, policy, auth, extra })
    }

    /// Encodes the value as a document.
    pub fn encode(&self) -> (r: JsonValue)
        ensures
            r@ == self.deep_view().encoded(),
    {
        let mut o = JsonObject::new();
        put_text(&mut o, "type", &self.payload_type);
        put_optional_u32(&mut o, "protocol", &self.protocol);
        match &self.policy {
            Some(v) => {
                put_json(&mut o, "policy", v.encode());
            },
            None => {},
        }
        match &self.auth {
            Some(v) => {
                put_json(&mut o, "auth", v.encode());
            },
            None => {},
        }
        o.extend(&self.extra);
        let r = JsonValue::Object(o);
        assert(r@->Object_0 =~= self.deep_view().encoded()->Object_0);
        r
    }
}

} // verus!
