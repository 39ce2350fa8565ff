//! The protocol document as a whole: its four states, their two directions,
//! and the version it describes.

use vstd::prelude::*;
use crate::schema::context::{ContextualError, ErrorContext};
use crate::schema::error::SchemaError;
use crate::schema::packet::{
    Failure, Packet, PacketDirection, PacketModel, packet_models, resolve_direction,
    walk_direction,
};
use crate::schema::raw::{get_object, get_str, parse_unsigned, unsigned_of};
use crate::schema::value::{Json, RawValue, entries_view};

verus! {

/// The type namespace of one direction: from type name to its definition.
pub struct PacketTypes<'a>(pub &'a Vec<(String, RawValue)>);

/// One direction of a protocol state.
pub struct ProtocolUnidirectional<'a> {
    pub types: PacketTypes<'a>,
}

/// One of the four connection phases, with its two directions.
pub struct ProtocolState<'a> {
    pub to_client: ProtocolUnidirectional<'a>,
    pub to_server: ProtocolUnidirectional<'a>,
}

/// The whole protocol definition: shared types and the four states.
pub struct ProtocolRoot<'a> {
    pub types: &'a Vec<(String, RawValue)>,
    pub handshaking: ProtocolState<'a>,
    pub status: ProtocolState<'a>,
    pub login: ProtocolState<'a>,
    pub play: ProtocolState<'a>,
}

/// The version that a protocol definition belongs to.
#[derive(Debug, PartialEq, Eq)]
pub struct ProtocolVersion {
    pub mc_version: String,
    pub version: u32,
    pub major_version: String,
}

/// The type namespace that a direction holds under "types".
pub open spec fn direction_types(direction: Json) -> Option<Seq<(Seq<char>, Json)>> {
    direction.object_at("types"@)
}

/// The type namespace of the direction stored under `key` of a state.
pub open spec fn types_toward(state: Json, key: Seq<char>) -> Option<Seq<(Seq<char>, Json)>> {
    match state.get(key) {
        Some(direction) => direction_types(direction),
        None => None,
    }
}

/// Whether a value has the shape of a protocol state.
pub open spec fn state_shape(state: Json) -> bool {
    types_toward(state, "toClient"@) is Some && types_toward(state, "toServer"@) is Some
}

/// Whether the state stored under `name` of a document has the shape of a state.
pub open spec fn has_state(document: Json, name: Seq<char>) -> bool {
    document.get(name) is Some && state_shape(document.get(name)->0)
}

/// Whether a value has the shape of a protocol definition.
pub open spec fn root_shape(document: Json) -> bool {
    &&& document.object_at("types"@) is Some
    &&& has_state(document, "handshaking"@)
    &&& has_state(document, "status"@)
    &&& has_state(document, "login"@)
    &&& has_state(document, "play"@)
}

/// The number stored under `key`, where it is written as plain digits.
pub open spec fn number_at(value: Json, key: Seq<char>) -> Option<nat> {
    match value.get(key) {
        Some(Json::Number(text)) => unsigned_of(text),
        _ => None,
    }
}

/// Whether a value has the shape of the version metadata.
pub open spec fn version_shape(value: Json) -> bool {
    &&& value.str_at("minecraftVersion"@) is Some
    &&& number_at(value, "version"@) is Some
    &&& number_at(value, "version"@)->0 <= u32::MAX
    &&& value.str_at("majorVersion"@) is Some
}

impl<'a> PacketTypes<'a> {
    /// The content of the namespace.
    pub open spec fn entries(&self) -> Seq<(Seq<char>, Json)> {
        entries_view(self.0@)
    }

    /// Resolves every packet of the direction that this namespace belongs
    /// to, by ascending id.
    pub fn per_packet(&self, direction: PacketDirection) -> (outcome: Result<
        Vec<Packet>,
        ContextualError,
    >)
        ensures
            outcome_matches(outcome, resolve_direction(self.entries(), direction)),
    {
        let mut context = ErrorContext::new();
        match State::per_packet_with_direction(self, direction, &mut context) {
            Ok(packets) => Ok(packets),
            Err(e) => Err(ContextualError(e, context.take())),
        }
    }
}

impl<'a> ProtocolUnidirectional<'a> {
    /// Reads a direction: an object whose "types" is an object.
    pub fn deserialize(value: &'a RawValue) -> (decoded: Option<ProtocolUnidirectional<'a>>)
        ensures
            match decoded {
                Some(d) => direction_types(value@) == Some(d.types.entries()),
                None => direction_types(value@) is None,
            },
    {
        match get_object(value, "types") {
            Some(types) => Some(ProtocolUnidirectional { types: PacketTypes(types) }),
            None => None,
        }
    }
}

impl<'a> ProtocolState<'a> {
    /// The type namespace of the packets sent to the client.
    pub open spec fn client_types(&self) -> Seq<(Seq<char>, Json)> {
        self.to_client.types.entries()
    }

    /// The type namespace of the packets sent to the server.
    pub open spec fn server_types(&self) -> Seq<(Seq<char>, Json)> {
        self.to_server.types.entries()
    }

    /// Reads a state: an object with the directions "toClient" and "toServer".
    pub fn deserialize(value: &'a RawValue) -> (decoded: Option<ProtocolState<'a>>)
        ensures
            decoded is Some <==> state_shape(value@),
            decoded matches Some(s) ==> {
                &&& types_toward(value@, "toClient"@) == Some(s.client_types())
                &&& types_toward(value@, "toServer"@) == Some(s.server_types())
            },
    {
        let to_client = match value.get("toClient") {
            Some(direction) => match ProtocolUnidirectional::deserialize(direction) {
                Some(d) => d,
                None => return None,
            },
            None => return None,
        };
        let to_server = match value.get("toServer") {
            Some(direction) => match ProtocolUnidirectional::deserialize(direction) {
                Some(d) => d,
                None => return None,
            },
            None => return None,
        };
        Some(ProtocolState { to_client, to_server })
    }
}

/// Reads the state stored under `name` of a document.
pub fn state_of<'a>(document: &'a RawValue, name: &str) -> (decoded: Option<ProtocolState<'a>>)
    ensures
        decoded is Some <==> has_state(document@, name@),
        decoded matches Some(s) ==> {
            &&& types_toward(document@.get(name@)->0, "toClient"@) == Some(s.client_types())
            &&& types_toward(document@.get(name@)->0, "toServer"@) == Some(s.server_types())
        },
{
    match document.get(name) {
        Some(state) => ProtocolState::deserialize(state),
        None => None,
    }
}

impl<'a> ProtocolRoot<'a> {
    /// Reads a protocol definition: an object with an object "types" and
    /// the four states.
    pub fn deserialize(value: &'a RawValue) -> (decoded: Option<ProtocolRoot<'a>>)
        ensures
            decoded is Some <==> root_shape(value@),
            decoded matches Some(root) ==> {
                &&& value@.object_at("types"@) == Some(entries_view(root.types@))
                &&& root.handshaking.client_types() == state_types(
                    value@,
                    "handshaking"@,
                    PacketDirection::Clientbound,
                )
                &&& root.handshaking.server_types() == state_types(
                    value@,
                    "handshaking"@,
                    PacketDirection::Serverbound,
                )
                &&& root.status.client_types() == state_types(
                    value@,
                    "status"@,
                    PacketDirection::Clientbound,
                )
                &&& root.status.server_types() == state_types(
                    value@,
                    "status"@,
                    PacketDirection::Serverbound,
                )
                &&& root.login.client_types() == state_types(
                    value@,
                    "login"@,
                    PacketDirection::Clientbound,
                )
                &&& root.login.server_types() == state_types(
                    value@,
                    "login"@,
                    PacketDirection::Serverbound,
                )
                &&& root.play.client_types() == state_types(
                    value@,
                    "play"@,
                    PacketDirection::Clientbound,
                )
                &&& root.play.server_types() == state_types(
                    value@,
                    "play"@,
                    PacketDirection::Serverbound,
                )
            },
    {
        let types = match get_object(value, "types") {
            Some(types) => types,
            None => return None,
        };
        let handshaking = match state_of(value, "handshaking") {
            Some(state) => state,
            None => return None,
        };
        let status = match state_of(value, "status") {
            Some(state) => state,
            None => return None,
        };
        let login = match state_of(value, "login") {
            Some(state) => state,
            None => return None,
        };
        let play = match state_of(value, "play") {
            Some(state) => state,
            None => return None,
        };
        Some(ProtocolRoot { types, handshaking, status, login, play })
    }
}

/// The type namespace of one direction of the state `name` of a document.
pub open spec fn state_types(document: Json, name: Seq<char>, direction: PacketDirection) -> Seq<
    (Seq<char>, Json),
> {
    types_toward(
        document.get(name)->0,
        match direction {
            PacketDirection::Clientbound => "toClient"@,
            PacketDirection::Serverbound => "toServer"@,
        },
    )->0
}

impl ProtocolVersion {
    /// Reads the version metadata: an object with the strings
    /// "minecraftVersion" and "majorVersion" and the number "version".
    pub fn deserialize(value: &RawValue) -> (decoded: Option<ProtocolVersion>)
        ensures
            decoded is Some <==> version_shape(value@),
            decoded matches Some(v) ==> {
                &&& value@.str_at("minecraftVersion"@) == Some(v.mc_version@)
                &&& number_at(value@, "version"@) == Some(v.version as nat)
                &&& value@.str_at("majorVersion"@) == Some(v.major_version@)
            },
    {
        let mc_version = match get_str(value, "minecraftVersion") {
            Some(s) => s.to_owned(),
            None => return None,
        };
        let version = match value.get("version") {
            Some(RawValue::Number(text)) => match parse_unsigned(text.as_str()) {
                Some(n) => if n <= 0xffff_ffff {
                    n as u32
                } else {
                    return None;
                },
                None => return None,
            },
            _ => return None,
        };
        let major_version = match get_str(value, "majorVersion") {
            Some(s) => s.to_owned(),
            None => return None,
        };
        Some(ProtocolVersion { mc_version, version, major_version })
    }
}

/// Every packet of a state: those sent to the client, then those sent to
/// the server; the first failure ends the walk.
pub open spec fn resolve_state(
    client_types: Seq<(Seq<char>, Json)>,
    server_types: Seq<(Seq<char>, Json)>,
) -> Result<Seq<PacketModel>, Failure> {
    match resolve_direction(client_types, PacketDirection::Clientbound) {
        Err(f) => Err(f),
        Ok(to_client) => match resolve_direction(server_types, PacketDirection::Serverbound) {
            Err(f) => Err(f),
            Ok(to_server) => Ok(to_client + to_server),
        },
    }
}

/// Whether the outcome of a walk is the one that the model of the walk
/// gives: the same packets, or the same error with the description of the
/// failed step attached.
pub open spec fn outcome_matches(
    outcome: Result<Vec<Packet>, ContextualError>,
    expected: Result<Seq<PacketModel>, Failure>,
) -> bool {
    match expected {
        Ok(packets) => outcome is Ok && packet_models(outcome->Ok_0@) == packets,
        Err(f) => match outcome {
            Err(ContextualError(error, Some(during))) => error@ == f.fault && during@ == f.during,
            _ => false,
        },
    }
}

/// One state of a protocol, ready to be walked.
pub struct State<'a> {
    root: ProtocolState<'a>,
}

impl<'a> State<'a> {
    /// The type namespace of the packets sent to the client.
    pub closed spec fn client_types(&self) -> Seq<(Seq<char>, Json)> {
        self.root.client_types()
    }

    /// The type namespace of the packets sent to the server.
    pub closed spec fn server_types(&self) -> Seq<(Seq<char>, Json)> {
        self.root.server_types()
    }

    /// The type namespace of the packets sent to the client.
    pub fn to_client(&self) -> (types: &PacketTypes<'a>)
        ensures
            types.entries() == self.client_types(),
    {
        &self.root.to_client.types
    }

    /// The type namespace of the packets sent to the server.
    pub fn to_server(&self) -> (types: &PacketTypes<'a>)
        ensures
            types.entries() == self.server_types(),
    {
        &self.root.to_server.types
    }

    /// Wraps a decoded state.
    pub fn new(root: ProtocolState<'a>) -> (state: State<'a>)
        ensures
            state.client_types() == root.client_types(),
            state.server_types() == root.server_types(),
    {
        State { root }
    }

    /// Resolves every packet of one direction, by ascending id. On failure
    /// the description of the failed step goes into `context`, unless a
    /// description is there already.
    pub fn per_packet_with_direction(
        types: &PacketTypes<'a>,
        dir: PacketDirection,
        context: &mut ErrorContext,
    ) -> (outcome: Result<Vec<Packet>, SchemaError>)
        ensures
            match resolve_direction(types.entries(), dir) {
                Ok(packets) => {
                    &&& outcome is Ok
                    &&& packet_models(outcome->Ok_0@) == packets
                    &&& final(context)@ == old(context)@
                },
                Err(f) => {
                    &&& outcome is Err
                    &&& outcome->Err_0@ == f.fault
                    &&& final(context)@ == match old(context)@ {
                        Some(deeper) => Some(deeper),
                        None => Some(f.during),
                    }
                },
            },
    {
        let mut step = context.current();
        match walk_direction(types.0, dir, &mut step) {
            Ok(packets) => {
                step.defuse();
                Ok(packets)
            },
            Err(e) => {
                step.release(context);
                Err(e)
            },
        }
    }

    /// Resolves the packets sent to the client.
    pub fn per_clientbound(&self) -> (outcome: Result<Vec<Packet>, ContextualError>)
        ensures
            outcome_matches(
                outcome,
                resolve_direction(self.client_types(), PacketDirection::Clientbound),
            ),
    {
        self.root.to_client.types.per_packet(PacketDirection::Clientbound)
    }

    /// Resolves the packets sent to the server.
    pub fn per_serverbound(&self) -> (outcome: Result<Vec<Packet>, ContextualError>)
        ensures
            outcome_matches(
                outcome,
                resolve_direction(self.server_types(), PacketDirection::Serverbound),
            ),
    {
        self.root.to_server.types.per_packet(PacketDirection::Serverbound)
    }

    /// Resolves every packet of the state: those sent to the client, then
    /// those sent to the server. The first failure ends the walk and comes
    /// back with the description of the step that failed.
    pub fn per_packet(&self) -> (outcome: Result<Vec<Packet>, ContextualError>)
        ensures
            outcome_matches(outcome, resolve_state(self.client_types(), self.server_types())),
    {
        let mut context = ErrorContext::new();
        let mut packets = match Self::per_packet_with_direction(
            &self.root.to_client.types,
            PacketDirection::Clientbound,
            &mut context,
        ) {
            Ok(packets) => packets,
            Err(e) => return Err(ContextualError(e, context.take())),
        };
        let mut to_server = match Self::per_packet_with_direction(
            &self.root.to_server.types,
            PacketDirection::Serverbound,
            &mut context,
        ) {
            Ok(packets) => packets,
            Err(e) => return Err(ContextualError(e, context.take())),
        };
        let ghost first = packet_models(packets@);
        let ghost second = packet_models(to_server@);
        packets.append(&mut to_server);
        assert(packet_models(packets@) =~= first + second);
        Ok(packets)
    }
}

/// A protocol definition together with the version it describes.
pub struct Schema {
    root: RawValue,
    version: ProtocolVersion,
}

impl Schema {
    #[verifier::type_invariant]
    spec fn well_formed(&self) -> bool {
        root_shape(self.root@)
    }

    /// The protocol definition that the schema holds.
    pub closed spec fn document(&self) -> Json {
        self.root@
    }

    /// The version metadata that the schema holds.
    pub closed spec fn version_model(&self) -> ProtocolVersion {
        self.version
    }

    /// Takes a protocol definition and its version metadata. The version is
    /// read first; either document fails if it does not have its shape.
    pub fn new(protocol: RawValue, version: &RawValue) -> (made: Result<Schema, SchemaError>)
        ensures
            match made {
                Ok(schema) => {
                    &&& version_shape(version@)
                    &&& root_shape(protocol@)
                    &&& schema.document() == protocol@
                    &&& version@.str_at("minecraftVersion"@) == Some(
                        schema.version_model().mc_version@,
                    )
                    &&& number_at(version@, "version"@) == Some(
                        schema.version_model().version as nat,
                    )
                    &&& version@.str_at("majorVersion"@) == Some(
                        schema.version_model().major_version@,
                    )
                },
                Err(e) => if !version_shape(version@) {
                    e@ == crate::schema::error::SchemaFault::Deserializing("version"@)
                } else {
                    !root_shape(protocol@) && e@
                        == crate::schema::error::SchemaFault::Deserializing("protocol"@)
                },
            },
    {
        let version = match ProtocolVersion::deserialize(version) {
            Some(version) => version,
            None => return Err(SchemaError::Deserializing("version")),
        };
        if ProtocolRoot::deserialize(&protocol).is_none() {
            return Err(SchemaError::Deserializing("protocol"));
        }
        Ok(Schema { root: protocol, version })
    }

    /// The version metadata.
    pub fn version(&self) -> (version: &ProtocolVersion)
        ensures
            *version == self.version_model(),
    {
        &self.version
    }

    /// The four states in their fixed order, each under its name:
    /// handshaking, status, login, play.
    pub fn per_state(&self) -> (states: Vec<(&'static str, State<'_>)>)
        ensures
            states@.len() == 4,
            states@[0].0@ == "handshaking"@,
            states@[1].0@ == "status"@,
            states@[2].0@ == "login"@,
            states@[3].0@ == "play"@,
            forall|i: int|
                0 <= i < 4 ==> {
                    &&& (#[trigger] states@[i]).1.client_types() == state_types(
                        self.document(),
                        states@[i].0@,
                        PacketDirection::Clientbound,
                    )
                    &&& states@[i].1.server_types() == state_types(
                        self.document(),
                        states@[i].0@,
                        PacketDirection::Serverbound,
                    )
                },
    {
        proof {
            use_type_invariant(self);
        }
        let mut states: Vec<(&'static str, State<'_>)> = Vec::with_capacity(4);
        match ProtocolRoot::deserialize(&self.root) {
            Some(root) => {
                states.push(("handshaking", State::new(root.handshaking)));
                states.push(("status", State::new(root.status)));
                states.push(("login", State::new(root.login)));
                states.push(("play", State::new(root.play)));
            },
            None => {
                assert(false);
            },
        }
        states
    }
}

} // verus!
