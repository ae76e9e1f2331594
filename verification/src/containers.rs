//! Containers: the records the daemon reports, the configuration a new
//! container is made from, and the lifecycle operations.
#![allow(non_snake_case)]

use crate::codec::member;
use crate::codec::member_or;
use crate::codec::optional_member;
use crate::codec::optional_to_json;
use crate::codec::encoded_optional;
use crate::codec::read_member;
use crate::codec::read_optional_member;
use crate::codec::Decode;
use crate::codec::Encode;
use crate::codec::RoundTrip;
use crate::codec::lemma_member_round_trip;
use crate::codec::lemma_optional_round_trip;
use crate::codec::valid_optional;
use crate::codec::StringMap;
use crate::docker::confirm_reply;
use crate::docker::confirm_response;
use crate::docker::decode_reply;
use crate::docker::decode_response;
use crate::docker::errors::DockerApiError;
use crate::docker::errors::JsonError;
use crate::docker::get_response_from_api_static;
use crate::docker::is_confirmation;
use crate::docker::is_confirmed_exchange;
use crate::docker::is_exchange;
use crate::docker::is_record_exchange;
use crate::docker::is_record;
use crate::docker::request_body;
use crate::docker::Client;
use crate::docker::Method;
use crate::docker::Response;
use crate::json::json_text;
use crate::json::lemma_object_view;
use crate::json::members_view;
use crate::json::Json;
use crate::json::JsonView;
use crate::json::Member;
use vstd::prelude::*;
use vstd::string::StringExecFns;

verus! {

// ---------------------------------------------------------------------------
// Port
// ---------------------------------------------------------------------------
/// A port of a container and the host port it is published on.
#[derive(Debug)]
pub struct Port {
    pub PrivatePort: u32,
    pub PublicPort: u32,
    pub Type: String,
}

/// A [`Port`] as plain values.
pub struct PortView {
    pub PrivatePort: u32,
    pub PublicPort: u32,
    pub Type: Seq<char>,
}

impl PortView {
    /// The port with nothing set.
    pub open spec fn blank() -> PortView {
        PortView {
            PrivatePort: 0,
            PublicPort: 0,
            Type: Seq::empty(),
        }
    }
}

impl DeepView for Port {
    type V = PortView;

    open spec fn deep_view(&self) -> PortView {
        PortView { PrivatePort: self.PrivatePort, PublicPort: self.PublicPort, Type: self.Type@ }
    }
}

impl View for Port {
    type V = PortView;

    open spec fn view(&self) -> PortView {
        self.deep_view()
    }
}

impl Decode for Port {
    open spec fn decoded(document: JsonView) -> Option<PortView> {
        match document {
            JsonView::Object(m) => {
                let private_port = member_or::<u32>(m, "PrivatePort"@, 0);
                let public_port = member_or::<u32>(m, "PublicPort"@, 0);
                let kind = member_or::<String>(m, "Type"@, Seq::empty());
                if private_port is Some && public_port is Some && kind is Some {
                    Some(
                        PortView {
                            PrivatePort: private_port->Some_0,
                            PublicPort: public_port->Some_0,
                            Type: kind->Some_0,
                        },
                    )
                } else {
                    None
                }
            },
            _ => None,
        }
    }

    fn from_json(document: &Json) -> (r: Result<Port, JsonError>) {
        match document {
            Json::Object(members) => {
                proof {
                    lemma_object_view(*members);
                }
                let private_port = match read_member::<u32>(members, "PrivatePort", 0) {
                    Ok(v) => v,
                    Err(e) => {
                        return Err(e);
                    },
                };
                let public_port = match read_member::<u32>(members, "PublicPort", 0) {
                    Ok(v) => v,
                    Err(e) => {
                        return Err(e);
                    },
                };
                let kind = match read_member::<String>(members, "Type", String::new()) {
                    Ok(v) => v,
                    Err(e) => {
                        return Err(e);
                    },
                };
                Ok(Port { PrivatePort: private_port, PublicPort: public_port, Type: kind })
            },
            _ => Err(JsonError::UnexpectedShape),
        }
    }
}

impl Encode for Port {
    open spec fn encoded(value: PortView) -> JsonView {
        JsonView::Object(
            seq![
                ("PrivatePort"@, u32::encoded(value.PrivatePort)),
                ("PublicPort"@, u32::encoded(value.PublicPort)),
                ("Type"@, String::encoded(value.Type)),
            ],
        )
    }

    fn to_json(&self) -> (document: Json) {
        let mut members: Vec<Member> = Vec::new();
        members.push(member("PrivatePort", self.PrivatePort.to_json()));
        members.push(member("PublicPort", self.PublicPort.to_json()));
        members.push(member("Type", self.Type.to_json()));
        proof {
            lemma_object_view(members);
            assert(members_view(members@) =~= Port::encoded(self.deep_view())->Object_0);
        }
        Json::Object(members)
    }
}

impl RoundTrip for Port {
    open spec fn valid(value: PortView) -> bool {
        u32::valid(value.PrivatePort)
            && u32::valid(value.PublicPort)
            && String::valid(value.Type)
    }

    proof fn round_trip(value: PortView) {
        let m = Port::encoded(value)->Object_0;
        reveal_strlit("PrivatePort");
        assert("PrivatePort"@ =~= seq!['P', 'r', 'i', 'v', 'a', 't', 'e', 'P', 'o', 'r', 't']);
        reveal_strlit("PublicPort");
        assert("PublicPort"@ =~= seq!['P', 'u', 'b', 'l', 'i', 'c', 'P', 'o', 'r', 't']);
        reveal_strlit("Type");
        assert("Type"@ =~= seq!['T', 'y', 'p', 'e']);
        lemma_member_round_trip::<u32>(m, "PrivatePort"@, 0, value.PrivatePort, 0);
        lemma_member_round_trip::<u32>(m, "PublicPort"@, 1, value.PublicPort, 0);
        lemma_member_round_trip::<String>(m, "Type"@, 2, value.Type, Seq::empty());
    }
}

/// An object without members is read as the record with nothing set.
pub proof fn lemma_port_without_members()
    ensures
        Port::decoded(JsonView::Object(Seq::empty())) == Some(PortView::blank()),
{
}

// ---------------------------------------------------------------------------
// HostConfig
// ---------------------------------------------------------------------------
/// The host-side settings of a container.
#[derive(Debug)]
pub struct HostConfig {
    pub NetworkMode: String,
}

/// A [`HostConfig`] as plain values.
pub struct HostConfigView {
    pub NetworkMode: Seq<char>,
}

impl HostConfigView {
    /// The settings with nothing set.
    pub open spec fn blank() -> HostConfigView {
        HostConfigView { NetworkMode: Seq::empty() }
    }
}

impl DeepView for HostConfig {
    type V = HostConfigView;

    open spec fn deep_view(&self) -> HostConfigView {
        HostConfigView { NetworkMode: self.NetworkMode@ }
    }
}

impl View for HostConfig {
    type V = HostConfigView;

    open spec fn view(&self) -> HostConfigView {
        self.deep_view()
    }
}

impl Default for HostConfig {
    fn default() -> (r: HostConfig)
        ensures
            r@ == HostConfigView::blank(),
    {
        HostConfig { NetworkMode: String::new() }
    }
}

impl Decode for HostConfig {
    open spec fn decoded(document: JsonView) -> Option<HostConfigView> {
        match document {
            JsonView::Object(m) => {
                let network_mode = member_or::<String>(m, "NetworkMode"@, Seq::empty());
                if network_mode is Some {
                    Some(HostConfigView { NetworkMode: network_mode->Some_0 })
                } else {
                    None
                }
            },
            _ => None,
        }
    }

    fn from_json(document: &Json) -> (r: Result<HostConfig, JsonError>) {
        match document {
            Json::Object(members) => {
                proof {
                    lemma_object_view(*members);
                }
                let network_mode = match read_member::<String>(
                    members,
                    "NetworkMode",
                    String::new(),
                ) {
                    Ok(v) => v,
                    Err(e) => {
                        return Err(e);
                    },
                };
                Ok(HostConfig { NetworkMode: network_mode })
            },
            _ => Err(JsonError::UnexpectedShape),
        }
    }
}

impl Encode for HostConfig {
    open spec fn encoded(value: HostConfigView) -> JsonView {
        JsonView::Object(
            seq![
                ("NetworkMode"@, String::encoded(value.NetworkMode)),
            ],
        )
    }

    fn to_json(&self) -> (document: Json) {
        let mut members: Vec<Member> = Vec::new();
        members.push(member("NetworkMode", self.NetworkMode.to_json()));
        proof {
            lemma_object_view(members);
            assert(members_view(members@) =~= HostConfig::encoded(self.deep_view())->Object_0);
        }
        Json::Object(members)
    }
}

impl RoundTrip for HostConfig {
    open spec fn valid(value: HostConfigView) -> bool {
        String::valid(value.NetworkMode)
    }

    proof fn round_trip(value: HostConfigView) {
        let m = HostConfig::encoded(value)->Object_0;
        reveal_strlit("NetworkMode");
        assert("NetworkMode"@ =~= seq!['N', 'e', 't', 'w', 'o', 'r', 'k', 'M', 'o', 'd', 'e']);
        lemma_member_round_trip::<String>(m, "NetworkMode"@, 0, value.NetworkMode, Seq::empty());
    }
}

/// An object without members is read as the record with nothing set.
pub proof fn lemma_host_config_without_members()
    ensures
        HostConfig::decoded(JsonView::Object(Seq::empty())) == Some(HostConfigView::blank()),
{
}

// ---------------------------------------------------------------------------
// Mounts
// ---------------------------------------------------------------------------
/// A volume or directory mounted into a container.
#[derive(Debug)]
pub struct Mounts {
    pub Name: Option<String>,
    pub Source: String,
    pub Destination: String,
    pub Driver: String,
    pub Mode: String,
    pub RW: bool,
    pub Propagation: String,
}

/// A [`Mounts`] as plain values.
pub struct MountsView {
    pub Name: Option<Seq<char>>,
    pub Source: Seq<char>,
    pub Destination: Seq<char>,
    pub Driver: Seq<char>,
    pub Mode: Seq<char>,
    pub RW: bool,
    pub Propagation: Seq<char>,
}

impl MountsView {
    /// The mount with nothing set.
    pub open spec fn blank() -> MountsView {
        MountsView {
            Name: None,
            Source: Seq::empty(),
            Destination: Seq::empty(),
            Driver: Seq::empty(),
            Mode: Seq::empty(),
            RW: false,
            Propagation: Seq::empty(),
        }
    }
}

impl DeepView for Mounts {
    type V = MountsView;

    open spec fn deep_view(&self) -> MountsView {
        MountsView {
            Name: self.Name.deep_view(),
            Source: self.Source@,
            Destination: self.Destination@,
            Driver: self.Driver@,
            Mode: self.Mode@,
            RW: self.RW,
            Propagation: self.Propagation@,
        }
    }
}

impl View for Mounts {
    type V = MountsView;

    open spec fn view(&self) -> MountsView {
        self.deep_view()
    }
}

impl Decode for Mounts {
    open spec fn decoded(document: JsonView) -> Option<MountsView> {
        match document {
            JsonView::Object(m) => {
                let name = optional_member::<String>(m, "Name"@);
                let source = member_or::<String>(m, "Source"@, Seq::empty());
                let destination = member_or::<String>(m, "Destination"@, Seq::empty());
                let driver = member_or::<String>(m, "Driver"@, Seq::empty());
                let mode = member_or::<String>(m, "Mode"@, Seq::empty());
                let rw = member_or::<bool>(m, "RW"@, false);
                let propagation = member_or::<String>(m, "Propagation"@, Seq::empty());
                if name is Some && source is Some && destination is Some && driver is Some
                    && mode is Some && rw is Some && propagation is Some {
                    Some(
                        MountsView {
                            Name: name->Some_0,
                            Source: source->Some_0,
                            Destination: destination->Some_0,
                            Driver: driver->Some_0,
                            Mode: mode->Some_0,
                            RW: rw->Some_0,
                            Propagation: propagation->Some_0,
                        },
                    )
                } else {
                    None
                }
            },
            _ => None,
        }
    }

    fn from_json(document: &Json) -> (r: Result<Mounts, JsonError>) {
        match document {
            Json::Object(members) => {
                proof {
                    lemma_object_view(*members);
                }
                let name = match read_optional_member::<String>(members, "Name") {
                    Ok(v) => v,
                    Err(e) => {
                        return Err(e);
                    },
                };
                let source = match read_member::<String>(members, "Source", String::new()) {
                    Ok(v) => v,
                    Err(e) => {
                        return Err(e);
                    },
                };
                let destination = match read_member::<String>(
                    members,
                    "Destination",
                    String::new(),
                ) {
                    Ok(v) => v,
                    Err(e) => {
                        return Err(e);
                    },
                };
                let driver = match read_member::<String>(members, "Driver", String::new()) {
                    Ok(v) => v,
                    Err(e) => {
                        return Err(e);
                    },
                };
                let mode = match read_member::<String>(members, "Mode", String::new()) {
                    Ok(v) => v,
                    Err(e) => {
                        return Err(e);
                    },
                };
                let rw = match read_member::<bool>(members, "RW", false) {
                    Ok(v) => v,
                    Err(e) => {
                        return Err(e);
                    },
                };
                let propagation = match read_member::<String>(
                    members,
                    "Propagation",
                    String::new(),
                ) {
                    Ok(v) => v,
                    Err(e) => {
                        return Err(e);
                    },
                };
                Ok(
                    Mounts {
                        Name: name,
                        Source: source,
                        Destination: destination,
                        Driver: driver,
                        Mode: mode,
                        RW: rw,
                        Propagation: propagation,
                    },
                )
            },
            _ => Err(JsonError::UnexpectedShape),
        }
    }
}

impl Encode for Mounts {
    open spec fn encoded(value: MountsView) -> JsonView {
        JsonView::Object(
            seq![
                ("Name"@, encoded_optional::<String>(value.Name)),
                ("Source"@, String::encoded(value.Source)),
                ("Destination"@, String::encoded(value.Destination)),
                ("Driver"@, String::encoded(value.Driver)),
                ("Mode"@, String::encoded(value.Mode)),
                ("RW"@, bool::encoded(value.RW)),
                ("Propagation"@, String::encoded(value.Propagation)),
            ],
        )
    }

    fn to_json(&self) -> (document: Json) {
        let mut members: Vec<Member> = Vec::new();
        members.push(member("Name", optional_to_json::<String>(&self.Name)));
        members.push(member("Source", self.Source.to_json()));
        members.push(member("Destination", self.Destination.to_json()));
        members.push(member("Driver", self.Driver.to_json()));
        members.push(member("Mode", self.Mode.to_json()));
        members.push(member("RW", self.RW.to_json()));
        members.push(member("Propagation", self.Propagation.to_json()));
        proof {
            lemma_object_view(members);
            assert(members_view(members@) =~= Mounts::encoded(self.deep_view())->Object_0);
        }
        Json::Object(members)
    }
}

impl RoundTrip for Mounts {
    open spec fn valid(value: MountsView) -> bool {
        valid_optional::<String>(value.Name)
            && String::valid(value.Source)
            && String::valid(value.Destination)
            && String::valid(value.Driver)
            && String::valid(value.Mode)
            && bool::valid(value.RW)
            && String::valid(value.Propagation)
    }

    proof fn round_trip(value: MountsView) {
        let m = Mounts::encoded(value)->Object_0;
        reveal_strlit("Name");
        assert("Name"@ =~= seq!['N', 'a', 'm', 'e']);
        reveal_strlit("Source");
        assert("Source"@ =~= seq!['S', 'o', 'u', 'r', 'c', 'e']);
        reveal_strlit("Destination");
        assert("Destination"@ =~= seq!['D', 'e', 's', 't', 'i', 'n', 'a', 't', 'i', 'o', 'n']);
        reveal_strlit("Driver");
        assert("Driver"@ =~= seq!['D', 'r', 'i', 'v', 'e', 'r']);
        reveal_strlit("Mode");
        assert("Mode"@ =~= seq!['M', 'o', 'd', 'e']);
        reveal_strlit("RW");
        assert("RW"@ =~= seq!['R', 'W']);
        reveal_strlit("Propagation");
        assert("Propagation"@ =~= seq!['P', 'r', 'o', 'p', 'a', 'g', 'a', 't', 'i', 'o', 'n']);
        lemma_optional_round_trip::<String>(m, "Name"@, 0, value.Name);
        lemma_member_round_trip::<String>(m, "Source"@, 1, value.Source, Seq::empty());
        lemma_member_round_trip::<String>(m, "Destination"@, 2, value.Destination, Seq::empty());
        lemma_member_round_trip::<String>(m, "Driver"@, 3, value.Driver, Seq::empty());
        lemma_member_round_trip::<String>(m, "Mode"@, 4, value.Mode, Seq::empty());
        lemma_member_round_trip::<bool>(m, "RW"@, 5, value.RW, false);
        lemma_member_round_trip::<String>(m, "Propagation"@, 6, value.Propagation, Seq::empty());
    }
}

/// An object without members is read as the record with nothing set.
pub proof fn lemma_mounts_without_members()
    ensures
        Mounts::decoded(JsonView::Object(Seq::empty())) == Some(MountsView::blank()),
{
}

// ---------------------------------------------------------------------------
// Container
// ---------------------------------------------------------------------------
/// A container as the daemon reports it, or as much of one as is known
/// before the daemon has been asked.
#[derive(Debug)]
pub struct Container {
    pub Id: String,
    pub Names: Vec<String>,
    pub Image: String,
    pub ImageID: String,
    pub Command: String,
    pub State: String,
    pub Status: String,
    pub Ports: Vec<Port>,
    pub Labels: Option<StringMap>,
    pub SizeRw: Option<i64>,
    pub SizeRootFs: u64,
    pub HostConfig: HostConfig,
    pub Mounts: Vec<Mounts>,
}

/// A [`Container`] as plain values.
pub struct ContainerView {
    pub Id: Seq<char>,
    pub Names: Seq<Seq<char>>,
    pub Image: Seq<char>,
    pub ImageID: Seq<char>,
    pub Command: Seq<char>,
    pub State: Seq<char>,
    pub Status: Seq<char>,
    pub Ports: Seq<PortView>,
    pub Labels: Option<Seq<(Seq<char>, Seq<char>)>>,
    pub SizeRw: Option<i64>,
    pub SizeRootFs: u64,
    pub HostConfig: HostConfigView,
    pub Mounts: Seq<MountsView>,
}

impl ContainerView {
    /// The container of which nothing is known.
    pub open spec fn blank() -> ContainerView {
        ContainerView {
            Id: Seq::empty(),
            Names: Seq::empty(),
            Image: Seq::empty(),
            ImageID: Seq::empty(),
            Command: Seq::empty(),
            State: Seq::empty(),
            Status: Seq::empty(),
            Ports: Seq::empty(),
            Labels: None,
            SizeRw: None,
            SizeRootFs: 0,
            HostConfig: HostConfigView::blank(),
            Mounts: Seq::empty(),
        }
    }
}

impl DeepView for Container {
    type V = ContainerView;

    open spec fn deep_view(&self) -> ContainerView {
        ContainerView {
            Id: self.Id@,
            Names: self.Names.deep_view(),
            Image: self.Image@,
            ImageID: self.ImageID@,
            Command: self.Command@,
            State: self.State@,
            Status: self.Status@,
            Ports: self.Ports.deep_view(),
            Labels: self.Labels.deep_view(),
            SizeRw: self.SizeRw.deep_view(),
            SizeRootFs: self.SizeRootFs,
            HostConfig: self.HostConfig.deep_view(),
            Mounts: self.Mounts.deep_view(),
        }
    }
}

impl View for Container {
    type V = ContainerView;

    open spec fn view(&self) -> ContainerView {
        self.deep_view()
    }
}

impl Default for Container {
    fn default() -> (r: Container)
        ensures
            r@ == ContainerView::blank(),
    {
        let r = Container {
            Id: String::new(),
            Names: Vec::new(),
            Image: String::new(),
            ImageID: String::new(),
            Command: String::new(),
            State: String::new(),
            Status: String::new(),
            Ports: Vec::new(),
            Labels: None,
            SizeRw: None,
            SizeRootFs: 0,
            HostConfig: HostConfig::default(),
            Mounts: Vec::new(),
        };
        assert(r.Names.deep_view() =~= Seq::empty());
        assert(r.Ports.deep_view() =~= Seq::empty());
        assert(r.Mounts.deep_view() =~= Seq::empty());
        r
    }
}

impl Decode for Container {
    open spec fn decoded(document: JsonView) -> Option<ContainerView> {
        match document {
            JsonView::Object(m) => {
                let id = member_or::<String>(m, "Id"@, Seq::empty());
                let names = member_or::<Vec<String>>(m, "Names"@, Seq::empty());
                let image = member_or::<String>(m, "Image"@, Seq::empty());
                let image_id = member_or::<String>(m, "ImageID"@, Seq::empty());
                let command = member_or::<String>(m, "Command"@, Seq::empty());
                let state = member_or::<String>(m, "State"@, Seq::empty());
                let status = member_or::<String>(m, "Status"@, Seq::empty());
                let ports = member_or::<Vec<Port>>(m, "Ports"@, Seq::empty());
                let labels = optional_member::<StringMap>(m, "Labels"@);
                let size_rw = optional_member::<i64>(m, "SizeRw"@);
                let size_root_fs = member_or::<u64>(m, "SizeRootFs"@, 0);
                let host_config = member_or::<HostConfig>(m, "HostConfig"@, HostConfigView::blank());
                let mounts = member_or::<Vec<Mounts>>(m, "Mounts"@, Seq::empty());
                if id is Some && names is Some && image is Some && image_id is Some && command is Some && state is Some && status is Some && ports is Some && labels is Some && size_rw is Some && size_root_fs is Some && host_config is Some && mounts is Some {
                    Some(
                        ContainerView {
                            Id: id->Some_0,
                            Names: names->Some_0,
                            Image: image->Some_0,
                            ImageID: image_id->Some_0,
                            Command: command->Some_0,
                            State: state->Some_0,
                            Status: status->Some_0,
                            Ports: ports->Some_0,
                            Labels: labels->Some_0,
                            SizeRw: size_rw->Some_0,
                            SizeRootFs: size_root_fs->Some_0,
                            HostConfig: host_config->Some_0,
                            Mounts: mounts->Some_0,
                        },
                    )
                } else {
                    None
                }
            },
            _ => None,
        }
    }

    fn from_json(document: &Json) -> (r: Result<Container, JsonError>) {
        match document {
            Json::Object(members) => {
                proof {
                    lemma_object_view(*members);
                }
                let id = match read_member::<String>(members, "Id", String::new()) {
                    Ok(v) => v,
                    Err(e) => {
                        return Err(e);
                    },
                };
                let names_default: Vec<String> = Vec::new();
                assert(names_default.deep_view() =~= Seq::empty());
                let names = match read_member::<Vec<String>>(members, "Names", names_default) {
                    Ok(v) => v,
                    Err(e) => {
                        return Err(e);
                    },
                };
                let image = match read_member::<String>(members, "Image", String::new()) {
                    Ok(v) => v,
                    Err(e) => {
                        return Err(e);
                    },
                };
                let image_id = match read_member::<String>(members, "ImageID", String::new()) {
                    Ok(v) => v,
                    Err(e) => {
                        return Err(e);
                    },
                };
                let command = match read_member::<String>(members, "Command", String::new()) {
                    Ok(v) => v,
                    Err(e) => {
                        return Err(e);
                    },
                };
                let state = match read_member::<String>(members, "State", String::new()) {
                    Ok(v) => v,
                    Err(e) => {
                        return Err(e);
                    },
                };
                let status = match read_member::<String>(members, "Status", String::new()) {
                    Ok(v) => v,
                    Err(e) => {
                        return Err(e);
                    },
                };
                let ports_default: Vec<Port> = Vec::new();
                assert(ports_default.deep_view() =~= Seq::empty());
                let ports = match read_member::<Vec<Port>>(members, "Ports", ports_default) {
                    Ok(v) => v,
                    Err(e) => {
                        return Err(e);
                    },
                };
                let labels = match read_optional_member::<StringMap>(members, "Labels") {
                    Ok(v) => v,
                    Err(e) => {
                        return Err(e);
                    },
                };
                let size_rw = match read_optional_member::<i64>(members, "SizeRw") {
                    Ok(v) => v,
                    Err(e) => {
                        return Err(e);
                    },
                };
                let size_root_fs = match read_member::<u64>(members, "SizeRootFs", 0) {
                    Ok(v) => v,
                    Err(e) => {
                        return Err(e);
                    },
                };
                let host_config = match read_member::<HostConfig>(members, "HostConfig", HostConfig::default()) {
                    Ok(v) => v,
                    Err(e) => {
                        return Err(e);
                    },
                };
                let mounts_default: Vec<Mounts> = Vec::new();
                assert(mounts_default.deep_view() =~= Seq::empty());
                let mounts = match read_member::<Vec<Mounts>>(members, "Mounts", mounts_default) {
                    Ok(v) => v,
                    Err(e) => {
                        return Err(e);
                    },
                };
                Ok(
                    Container {
                        Id: id,
                        Names: names,
                        Image: image,
                        ImageID: image_id,
                        Command: command,
                        State: state,
                        Status: status,
                        Ports: ports,
                        Labels: labels,
                        SizeRw: size_rw,
                        SizeRootFs: size_root_fs,
                        HostConfig: host_config,
                        Mounts: mounts,
                    },
                )
            },
            _ => Err(JsonError::UnexpectedShape),
        }
    }
}

impl Encode for Container {
    open spec fn encoded(value: ContainerView) -> JsonView {
        JsonView::Object(
            seq![
                ("Id"@, String::encoded(value.Id)),
                ("Names"@, <Vec<String>>::encoded(value.Names)),
                ("Image"@, String::encoded(value.Image)),
                ("ImageID"@, String::encoded(value.ImageID)),
                ("Command"@, String::encoded(value.Command)),
                ("State"@, String::encoded(value.State)),
                ("Status"@, String::encoded(value.Status)),
                ("Ports"@, <Vec<Port>>::encoded(value.Ports)),
                ("Labels"@, encoded_optional::<StringMap>(value.Labels)),
                ("SizeRw"@, encoded_optional::<i64>(value.SizeRw)),
                ("SizeRootFs"@, u64::encoded(value.SizeRootFs)),
                ("HostConfig"@, HostConfig::encoded(value.HostConfig)),
                ("Mounts"@, <Vec<Mounts>>::encoded(value.Mounts)),
            ],
        )
    }

    fn to_json(&self) -> (document: Json) {
        let mut members: Vec<Member> = Vec::new();
        members.push(member("Id", self.Id.to_json()));
        members.push(member("Names", self.Names.to_json()));
        members.push(member("Image", self.Image.to_json()));
        members.push(member("ImageID", self.ImageID.to_json()));
        members.push(member("Command", self.Command.to_json()));
        members.push(member("State", self.State.to_json()));
        members.push(member("Status", self.Status.to_json()));
        members.push(member("Ports", self.Ports.to_json()));
        members.push(member("Labels", optional_to_json::<StringMap>(&self.Labels)));
        members.push(member("SizeRw", optional_to_json::<i64>(&self.SizeRw)));
        members.push(member("SizeRootFs", self.SizeRootFs.to_json()));
        members.push(member("HostConfig", self.HostConfig.to_json()));
        members.push(member("Mounts", self.Mounts.to_json()));
        proof {
            lemma_object_view(members);
            assert(members_view(members@) =~= Container::encoded(self.deep_view())->Object_0);
        }
        Json::Object(members)
    }
}

impl RoundTrip for Container {
    open spec fn valid(value: ContainerView) -> bool {
        String::valid(value.Id)
            && <Vec<String>>::valid(value.Names)
            && String::valid(value.Image)
            && String::valid(value.ImageID)
            && String::valid(value.Command)
            && String::valid(value.State)
            && String::valid(value.Status)
            && <Vec<Port>>::valid(value.Ports)
            && valid_optional::<StringMap>(value.Labels)
            && valid_optional::<i64>(value.SizeRw)
            && u64::valid(value.SizeRootFs)
            && HostConfig::valid(value.HostConfig)
            && <Vec<Mounts>>::valid(value.Mounts)
    }

    proof fn round_trip(value: ContainerView) {
        let m = Container::encoded(value)->Object_0;
        reveal_strlit("Id");
        assert("Id"@ =~= seq!['I', 'd']);
        reveal_strlit("Names");
        assert("Names"@ =~= seq!['N', 'a', 'm', 'e', 's']);
        reveal_strlit("Image");
        assert("Image"@ =~= seq!['I', 'm', 'a', 'g', 'e']);
        reveal_strlit("ImageID");
        assert("ImageID"@ =~= seq!['I', 'm', 'a', 'g', 'e', 'I', 'D']);
        reveal_strlit("Command");
        assert("Command"@ =~= seq!['C', 'o', 'm', 'm', 'a', 'n', 'd']);
        reveal_strlit("State");
        assert("State"@ =~= seq!['S', 't', 'a', 't', 'e']);
        reveal_strlit("Status");
        assert("Status"@ =~= seq!['S', 't', 'a', 't', 'u', 's']);
        reveal_strlit("Ports");
        assert("Ports"@ =~= seq!['P', 'o', 'r', 't', 's']);
        reveal_strlit("Labels");
        assert("Labels"@ =~= seq!['L', 'a', 'b', 'e', 'l', 's']);
        reveal_strlit("SizeRw");
        assert("SizeRw"@ =~= seq!['S', 'i', 'z', 'e', 'R', 'w']);
        reveal_strlit("SizeRootFs");
        assert("SizeRootFs"@ =~= seq!['S', 'i', 'z', 'e', 'R', 'o', 'o', 't', 'F', 's']);
        reveal_strlit("HostConfig");
        assert("HostConfig"@ =~= seq!['H', 'o', 's', 't', 'C', 'o', 'n', 'f', 'i', 'g']);
        reveal_strlit("Mounts");
        assert("Mounts"@ =~= seq!['M', 'o', 'u', 'n', 't', 's']);
        lemma_member_round_trip::<String>(m, "Id"@, 0, value.Id, Seq::empty());
        lemma_member_round_trip::<Vec<String>>(m, "Names"@, 1, value.Names, Seq::empty());
        lemma_member_round_trip::<String>(m, "Image"@, 2, value.Image, Seq::empty());
        lemma_member_round_trip::<String>(m, "ImageID"@, 3, value.ImageID, Seq::empty());
        lemma_member_round_trip::<String>(m, "Command"@, 4, value.Command, Seq::empty());
        lemma_member_round_trip::<String>(m, "State"@, 5, value.State, Seq::empty());
        lemma_member_round_trip::<String>(m, "Status"@, 6, value.Status, Seq::empty());
        lemma_member_round_trip::<Vec<Port>>(m, "Ports"@, 7, value.Ports, Seq::empty());
        lemma_optional_round_trip::<StringMap>(m, "Labels"@, 8, value.Labels);
        lemma_optional_round_trip::<i64>(m, "SizeRw"@, 9, value.SizeRw);
        lemma_member_round_trip::<u64>(m, "SizeRootFs"@, 10, value.SizeRootFs, 0);
        lemma_member_round_trip::<HostConfig>(m, "HostConfig"@, 11, value.HostConfig, HostConfigView::blank());
        lemma_member_round_trip::<Vec<Mounts>>(m, "Mounts"@, 12, value.Mounts, Seq::empty());
    }
}

/// An object without members is read as the record with nothing set.
pub proof fn lemma_container_without_members()
    ensures
        Container::decoded(JsonView::Object(Seq::empty())) == Some(ContainerView::blank()),
{
}

// ---------------------------------------------------------------------------
// ContainerConfig
// ---------------------------------------------------------------------------
/// What a new container is made from.
#[derive(Debug)]
pub struct ContainerConfig {
    pub Image: String,
    pub Cmd: Vec<String>,
    pub Hostname: String,
    pub Domainname: String,
    pub User: String,
    pub AttachStdin: bool,
    pub AttachStdout: bool,
    pub AttachStderr: bool,
    pub Tty: bool,
    pub OpenStdin: bool,
    pub StdinOnce: bool,
    pub Env: Vec<String>,
    pub Entrypoint: Option<String>,
    pub Labels: Option<StringMap>,
    pub WorkingDir: String,
    pub NetworkingDisabled: bool,
    pub MacAddress: String,
    pub ExposedPorts: Option<StringMap>,
}

/// A [`ContainerConfig`] as plain values.
pub struct ContainerConfigView {
    pub Image: Seq<char>,
    pub Cmd: Seq<Seq<char>>,
    pub Hostname: Seq<char>,
    pub Domainname: Seq<char>,
    pub User: Seq<char>,
    pub AttachStdin: bool,
    pub AttachStdout: bool,
    pub AttachStderr: bool,
    pub Tty: bool,
    pub OpenStdin: bool,
    pub StdinOnce: bool,
    pub Env: Seq<Seq<char>>,
    pub Entrypoint: Option<Seq<char>>,
    pub Labels: Option<Seq<(Seq<char>, Seq<char>)>>,
    pub WorkingDir: Seq<char>,
    pub NetworkingDisabled: bool,
    pub MacAddress: Seq<char>,
    pub ExposedPorts: Option<Seq<(Seq<char>, Seq<char>)>>,
}

impl ContainerConfigView {
    /// The configuration with nothing set.
    pub open spec fn blank() -> ContainerConfigView {
        ContainerConfigView {
            Image: Seq::empty(),
            Cmd: Seq::empty(),
            Hostname: Seq::empty(),
            Domainname: Seq::empty(),
            User: Seq::empty(),
            AttachStdin: false,
            AttachStdout: false,
            AttachStderr: false,
            Tty: false,
            OpenStdin: false,
            StdinOnce: false,
            Env: Seq::empty(),
            Entrypoint: None,
            Labels: None,
            WorkingDir: Seq::empty(),
            NetworkingDisabled: false,
            MacAddress: Seq::empty(),
            ExposedPorts: None,
        }
    }
}

impl DeepView for ContainerConfig {
    type V = ContainerConfigView;

    open spec fn deep_view(&self) -> ContainerConfigView {
        ContainerConfigView {
            Image: self.Image@,
            Cmd: self.Cmd.deep_view(),
            Hostname: self.Hostname@,
            Domainname: self.Domainname@,
            User: self.User@,
            AttachStdin: self.AttachStdin,
            AttachStdout: self.AttachStdout,
            AttachStderr: self.AttachStderr,
            Tty: self.Tty,
            OpenStdin: self.OpenStdin,
            StdinOnce: self.StdinOnce,
            Env: self.Env.deep_view(),
            Entrypoint: self.Entrypoint.deep_view(),
            Labels: self.Labels.deep_view(),
            WorkingDir: self.WorkingDir@,
            NetworkingDisabled: self.NetworkingDisabled,
            MacAddress: self.MacAddress@,
            ExposedPorts: self.ExposedPorts.deep_view(),
        }
    }
}

impl View for ContainerConfig {
    type V = ContainerConfigView;

    open spec fn view(&self) -> ContainerConfigView {
        self.deep_view()
    }
}

impl Default for ContainerConfig {
    fn default() -> (r: ContainerConfig)
        ensures
            r@ == ContainerConfigView::blank(),
    {
        let r = ContainerConfig {
            Image: String::new(),
            Cmd: Vec::new(),
            Hostname: String::new(),
            Domainname: String::new(),
            User: String::new(),
            AttachStdin: false,
            AttachStdout: false,
            AttachStderr: false,
            Tty: false,
            OpenStdin: false,
            StdinOnce: false,
            Env: Vec::new(),
            Entrypoint: None,
            Labels: None,
            WorkingDir: String::new(),
            NetworkingDisabled: false,
            MacAddress: String::new(),
            ExposedPorts: None,
        };
        assert(r.Cmd.deep_view() =~= Seq::empty());
        assert(r.Env.deep_view() =~= Seq::empty());
        r
    }
}

impl Encode for ContainerConfig {
    open spec fn encoded(value: ContainerConfigView) -> JsonView {
        JsonView::Object(
            seq![
                ("Image"@, String::encoded(value.Image)),
                ("Cmd"@, <Vec<String>>::encoded(value.Cmd)),
                ("Hostname"@, String::encoded(value.Hostname)),
                ("Domainname"@, String::encoded(value.Domainname)),
                ("User"@, String::encoded(value.User)),
                ("AttachStdin"@, bool::encoded(value.AttachStdin)),
                ("AttachStdout"@, bool::encoded(value.AttachStdout)),
                ("AttachStderr"@, bool::encoded(value.AttachStderr)),
                ("Tty"@, bool::encoded(value.Tty)),
                ("OpenStdin"@, bool::encoded(value.OpenStdin)),
                ("StdinOnce"@, bool::encoded(value.StdinOnce)),
                ("Env"@, <Vec<String>>::encoded(value.Env)),
                ("Entrypoint"@, encoded_optional::<String>(value.Entrypoint)),
                ("Labels"@, encoded_optional::<StringMap>(value.Labels)),
                ("WorkingDir"@, String::encoded(value.WorkingDir)),
                ("NetworkingDisabled"@, bool::encoded(value.NetworkingDisabled)),
                ("MacAddress"@, String::encoded(value.MacAddress)),
                ("ExposedPorts"@, encoded_optional::<StringMap>(value.ExposedPorts)),
            ],
        )
    }

    fn to_json(&self) -> (document: Json) {
        let mut members: Vec<Member> = Vec::new();
        members.push(member("Image", self.Image.to_json()));
        members.push(member("Cmd", self.Cmd.to_json()));
        members.push(member("Hostname", self.Hostname.to_json()));
        members.push(member("Domainname", self.Domainname.to_json()));
        members.push(member("User", self.User.to_json()));
        members.push(member("AttachStdin", self.AttachStdin.to_json()));
        members.push(member("AttachStdout", self.AttachStdout.to_json()));
        members.push(member("AttachStderr", self.AttachStderr.to_json()));
        members.push(member("Tty", self.Tty.to_json()));
        members.push(member("OpenStdin", self.OpenStdin.to_json()));
        members.push(member("StdinOnce", self.StdinOnce.to_json()));
        members.push(member("Env", self.Env.to_json()));
        members.push(member("Entrypoint", optional_to_json::<String>(&self.Entrypoint)));
        members.push(member("Labels", optional_to_json::<StringMap>(&self.Labels)));
        members.push(member("WorkingDir", self.WorkingDir.to_json()));
        members.push(member("NetworkingDisabled", self.NetworkingDisabled.to_json()));
        members.push(member("MacAddress", self.MacAddress.to_json()));
        members.push(member("ExposedPorts", optional_to_json::<StringMap>(&self.ExposedPorts)));
        proof {
            lemma_object_view(members);
            assert(members_view(members@) =~= ContainerConfig::encoded(self.deep_view())->Object_0);
        }
        Json::Object(members)
    }
}

impl Decode for ContainerConfig {
    open spec fn decoded(document: JsonView) -> Option<ContainerConfigView> {
        match document {
            JsonView::Object(m) => {
                let image = member_or::<String>(m, "Image"@, Seq::empty());
                let cmd = member_or::<Vec<String>>(m, "Cmd"@, Seq::empty());
                let hostname = member_or::<String>(m, "Hostname"@, Seq::empty());
                let domainname = member_or::<String>(m, "Domainname"@, Seq::empty());
                let user = member_or::<String>(m, "User"@, Seq::empty());
                let attach_stdin = member_or::<bool>(m, "AttachStdin"@, false);
                let attach_stdout = member_or::<bool>(m, "AttachStdout"@, false);
                let attach_stderr = member_or::<bool>(m, "AttachStderr"@, false);
                let tty = member_or::<bool>(m, "Tty"@, false);
                let open_stdin = member_or::<bool>(m, "OpenStdin"@, false);
                let stdin_once = member_or::<bool>(m, "StdinOnce"@, false);
                let env = member_or::<Vec<String>>(m, "Env"@, Seq::empty());
                let entrypoint = optional_member::<String>(m, "Entrypoint"@);
                let labels = optional_member::<StringMap>(m, "Labels"@);
                let working_dir = member_or::<String>(m, "WorkingDir"@, Seq::empty());
                let networking_disabled = member_or::<bool>(m, "NetworkingDisabled"@, false);
                let mac_address = member_or::<String>(m, "MacAddress"@, Seq::empty());
                let exposed_ports = optional_member::<StringMap>(m, "ExposedPorts"@);
                if image is Some && cmd is Some && hostname is Some && domainname is Some && user is Some && attach_stdin is Some && attach_stdout is Some && attach_stderr is Some && tty is Some && open_stdin is Some && stdin_once is Some && env is Some && entrypoint is Some && labels is Some && working_dir is Some && networking_disabled is Some && mac_address is Some && exposed_ports is Some {
                    Some(
                        ContainerConfigView {
                            Image: image->Some_0,
                            Cmd: cmd->Some_0,
                            Hostname: hostname->Some_0,
                            Domainname: domainname->Some_0,
                            User: user->Some_0,
                            AttachStdin: attach_stdin->Some_0,
                            AttachStdout: attach_stdout->Some_0,
                            AttachStderr: attach_stderr->Some_0,
                            Tty: tty->Some_0,
                            OpenStdin: open_stdin->Some_0,
                            StdinOnce: stdin_once->Some_0,
                            Env: env->Some_0,
                            Entrypoint: entrypoint->Some_0,
                            Labels: labels->Some_0,
                            WorkingDir: working_dir->Some_0,
                            NetworkingDisabled: networking_disabled->Some_0,
                            MacAddress: mac_address->Some_0,
                            ExposedPorts: exposed_ports->Some_0,
                        },
                    )
                } else {
                    None
                }
            },
            _ => None,
        }
    }

    fn from_json(document: &Json) -> (r: Result<ContainerConfig, JsonError>) {
        match document {
            Json::Object(members) => {
                proof {
                    lemma_object_view(*members);
                }
                let image = match read_member::<String>(members, "Image", String::new()) {
                    Ok(v) => v,
                    Err(e) => {
                        return Err(e);
                    },
                };
                let cmd_default: Vec<String> = Vec::new();
                assert(cmd_default.deep_view() =~= Seq::empty());
                let cmd = match read_member::<Vec<String>>(members, "Cmd", cmd_default) {
                    Ok(v) => v,
                    Err(e) => {
                        return Err(e);
                    },
                };
                let hostname = match read_member::<String>(members, "Hostname", String::new()) {
                    Ok(v) => v,
                    Err(e) => {
                        return Err(e);
                    },
                };
                let domainname = match read_member::<String>(members, "Domainname", String::new()) {
                    Ok(v) => v,
                    Err(e) => {
                        return Err(e);
                    },
                };
                let user = match read_member::<String>(members, "User", String::new()) {
                    Ok(v) => v,
                    Err(e) => {
                        return Err(e);
                    },
                };
                let attach_stdin = match read_member::<bool>(members, "AttachStdin", false) {
                    Ok(v) => v,
                    Err(e) => {
                        return Err(e);
                    },
                };
                let attach_stdout = match read_member::<bool>(members, "AttachStdout", false) {
                    Ok(v) => v,
                    Err(e) => {
                        return Err(e);
                    },
                };
                let attach_stderr = match read_member::<bool>(members, "AttachStderr", false) {
                    Ok(v) => v,
                    Err(e) => {
                        return Err(e);
                    },
                };
                let tty = match read_member::<bool>(members, "Tty", false) {
                    Ok(v) => v,
                    Err(e) => {
                        return Err(e);
                    },
                };
                let open_stdin = match read_member::<bool>(members, "OpenStdin", false) {
                    Ok(v) => v,
                    Err(e) => {
                        return Err(e);
                    },
                };
                let stdin_once = match read_member::<bool>(members, "StdinOnce", false) {
                    Ok(v) => v,
                    Err(e) => {
                        return Err(e);
                    },
                };
                let env_default: Vec<String> = Vec::new();
                assert(env_default.deep_view() =~= Seq::empty());
                let env = match read_member::<Vec<String>>(members, "Env", env_default) {
                    Ok(v) => v,
                    Err(e) => {
                        return Err(e);
                    },
                };
                let entrypoint = match read_optional_member::<String>(members, "Entrypoint") {
                    Ok(v) => v,
                    Err(e) => {
                        return Err(e);
                    },
                };
                let labels = match read_optional_member::<StringMap>(members, "Labels") {
                    Ok(v) => v,
                    Err(e) => {
                        return Err(e);
                    },
                };
                let working_dir = match read_member::<String>(members, "WorkingDir", String::new()) {
                    Ok(v) => v,
                    Err(e) => {
                        return Err(e);
                    },
                };
                let networking_disabled = match read_member::<bool>(members, "NetworkingDisabled", false) {
                    Ok(v) => v,
                    Err(e) => {
                        return Err(e);
                    },
                };
                let mac_address = match read_member::<String>(members, "MacAddress", String::new()) {
                    Ok(v) => v,
                    Err(e) => {
                        return Err(e);
                    },
                };
                let exposed_ports = match read_optional_member::<StringMap>(members, "ExposedPorts") {
                    Ok(v) => v,
                    Err(e) => {
                        return Err(e);
                    },
                };
                Ok(
                    ContainerConfig {
                        Image: image,
                        Cmd: cmd,
                        Hostname: hostname,
                        Domainname: domainname,
                        User: user,
                        AttachStdin: attach_stdin,
                        AttachStdout: attach_stdout,
                        AttachStderr: attach_stderr,
                        Tty: tty,
                        OpenStdin: open_stdin,
                        StdinOnce: stdin_once,
                        Env: env,
                        Entrypoint: entrypoint,
                        Labels: labels,
                        WorkingDir: working_dir,
                        NetworkingDisabled: networking_disabled,
                        MacAddress: mac_address,
                        ExposedPorts: exposed_ports,
                    },
                )
            },
            _ => Err(JsonError::UnexpectedShape),
        }
    }
}

impl RoundTrip for ContainerConfig {
    open spec fn valid(value: ContainerConfigView) -> bool {
        String::valid(value.Image)
            && <Vec<String>>::valid(value.Cmd)
            && String::valid(value.Hostname)
            && String::valid(value.Domainname)
            && String::valid(value.User)
            && bool::valid(value.AttachStdin)
            && bool::valid(value.AttachStdout)
            && bool::valid(value.AttachStderr)
            && bool::valid(value.Tty)
            && bool::valid(value.OpenStdin)
            && bool::valid(value.StdinOnce)
            && <Vec<String>>::valid(value.Env)
            && valid_optional::<String>(value.Entrypoint)
            && valid_optional::<StringMap>(value.Labels)
            && String::valid(value.WorkingDir)
            && bool::valid(value.NetworkingDisabled)
            && String::valid(value.MacAddress)
            && valid_optional::<StringMap>(value.ExposedPorts)
    }

    proof fn round_trip(value: ContainerConfigView) {
        let m = ContainerConfig::encoded(value)->Object_0;
        reveal_strlit("Image");
        assert("Image"@ =~= seq!['I', 'm', 'a', 'g', 'e']);
        reveal_strlit("Cmd");
        assert("Cmd"@ =~= seq!['C', 'm', 'd']);
        reveal_strlit("Hostname");
        assert("Hostname"@ =~= seq!['H', 'o', 's', 't', 'n', 'a', 'm', 'e']);
        reveal_strlit("Domainname");
        assert("Domainname"@ =~= seq!['D', 'o', 'm', 'a', 'i', 'n', 'n', 'a', 'm', 'e']);
        reveal_strlit("User");
        assert("User"@ =~= seq!['U', 's', 'e', 'r']);
        reveal_strlit("AttachStdin");
        assert("AttachStdin"@ =~= seq!['A', 't', 't', 'a', 'c', 'h', 'S', 't', 'd', 'i', 'n']);
        reveal_strlit("AttachStdout");
        assert("AttachStdout"@ =~= seq!['A', 't', 't', 'a', 'c', 'h', 'S', 't', 'd', 'o', 'u', 't']);
        reveal_strlit("AttachStderr");
        assert("AttachStderr"@ =~= seq!['A', 't', 't', 'a', 'c', 'h', 'S', 't', 'd', 'e', 'r', 'r']);
        reveal_strlit("Tty");
        assert("Tty"@ =~= seq!['T', 't', 'y']);
        reveal_strlit("OpenStdin");
        assert("OpenStdin"@ =~= seq!['O', 'p', 'e', 'n', 'S', 't', 'd', 'i', 'n']);
        reveal_strlit("StdinOnce");
        assert("StdinOnce"@ =~= seq!['S', 't', 'd', 'i', 'n', 'O', 'n', 'c', 'e']);
        reveal_strlit("Env");
        assert("Env"@ =~= seq!['E', 'n', 'v']);
        reveal_strlit("Entrypoint");
        assert("Entrypoint"@ =~= seq!['E', 'n', 't', 'r', 'y', 'p', 'o', 'i', 'n', 't']);
        reveal_strlit("Labels");
        assert("Labels"@ =~= seq!['L', 'a', 'b', 'e', 'l', 's']);
        reveal_strlit("WorkingDir");
        assert("WorkingDir"@ =~= seq!['W', 'o', 'r', 'k', 'i', 'n', 'g', 'D', 'i', 'r']);
        reveal_strlit("NetworkingDisabled");
        assert("NetworkingDisabled"@ =~= seq!['N', 'e', 't', 'w', 'o', 'r', 'k', 'i', 'n', 'g', 'D', 'i', 's', 'a', 'b', 'l', 'e', 'd']);
        reveal_strlit("MacAddress");
        assert("MacAddress"@ =~= seq!['M', 'a', 'c', 'A', 'd', 'd', 'r', 'e', 's', 's']);
        reveal_strlit("ExposedPorts");
        assert("ExposedPorts"@ =~= seq!['E', 'x', 'p', 'o', 's', 'e', 'd', 'P', 'o', 'r', 't', 's']);
        lemma_member_round_trip::<String>(m, "Image"@, 0, value.Image, Seq::empty());
        lemma_member_round_trip::<Vec<String>>(m, "Cmd"@, 1, value.Cmd, Seq::empty());
        lemma_member_round_trip::<String>(m, "Hostname"@, 2, value.Hostname, Seq::empty());
        lemma_member_round_trip::<String>(m, "Domainname"@, 3, value.Domainname, Seq::empty());
        lemma_member_round_trip::<String>(m, "User"@, 4, value.User, Seq::empty());
        lemma_member_round_trip::<bool>(m, "AttachStdin"@, 5, value.AttachStdin, false);
        lemma_member_round_trip::<bool>(m, "AttachStdout"@, 6, value.AttachStdout, false);
        lemma_member_round_trip::<bool>(m, "AttachStderr"@, 7, value.AttachStderr, false);
        lemma_member_round_trip::<bool>(m, "Tty"@, 8, value.Tty, false);
        lemma_member_round_trip::<bool>(m, "OpenStdin"@, 9, value.OpenStdin, false);
        lemma_member_round_trip::<bool>(m, "StdinOnce"@, 10, value.StdinOnce, false);
        lemma_member_round_trip::<Vec<String>>(m, "Env"@, 11, value.Env, Seq::empty());
        lemma_optional_round_trip::<String>(m, "Entrypoint"@, 12, value.Entrypoint);
        lemma_optional_round_trip::<StringMap>(m, "Labels"@, 13, value.Labels);
        lemma_member_round_trip::<String>(m, "WorkingDir"@, 14, value.WorkingDir, Seq::empty());
        lemma_member_round_trip::<bool>(m, "NetworkingDisabled"@, 15, value.NetworkingDisabled, false);
        lemma_member_round_trip::<String>(m, "MacAddress"@, 16, value.MacAddress, Seq::empty());
        lemma_optional_round_trip::<StringMap>(m, "ExposedPorts"@, 17, value.ExposedPorts);
    }
}

/// An object without members is read as the record with nothing set.
pub proof fn lemma_container_config_without_members()
    ensures
        ContainerConfig::decoded(JsonView::Object(Seq::empty())) == Some(ContainerConfigView::blank()),
{
}

// ---------------------------------------------------------------------------
// Operations
// ---------------------------------------------------------------------------
/// The text that is given, the empty text where none is.
pub open spec fn text_or_empty(text: Option<String>) -> Seq<char> {
    match text {
        Some(t) => t@,
        None => Seq::empty(),
    }
}

/// The query string that names a new container.
pub open spec fn create_params(name: Option<String>) -> Seq<char> {
    "?name="@ + text_or_empty(name)
}

/// The configuration that goes out when a container with the image `image`
/// is created from `config`. The image of a configuration that names one
/// stays; a configuration that names none gets `image`; every other
/// setting is the caller's, or unset where no configuration is given.
pub open spec fn resolved_config(
    image: Seq<char>,
    config: Option<ContainerConfigView>,
) -> ContainerConfigView {
    match config {
        Some(given) => if given.Image.len() == 0 {
            ContainerConfigView { Image: image, ..given }
        } else {
            given
        },
        None => ContainerConfigView { Image: image, ..ContainerConfigView::blank() },
    }
}

/// Where an action on the container `id` is asked for.
pub open spec fn action_endpoint(id: Seq<char>, action: Seq<char>) -> Seq<char> {
    "/containers/"@ + id + "/"@ + action
}

/// What is answered when an action has been carried out.
pub open spec fn action_confirmation(action: Seq<char>) -> Seq<char> {
    "Operation "@ + action + " run correctly"@
}

/// Where the container `id` is removed.
pub open spec fn remove_endpoint(id: Seq<char>) -> Seq<char> {
    "/containers/"@ + id
}

/// What is answered when a container has been removed.
pub open spec fn remove_confirmation() -> Seq<char> {
    "Container deleted correctly"@
}

/// The image of the configuration that goes out is the caller's where the
/// caller names one, else the container's; where a configuration is given,
/// nothing but the image differs from it.
pub proof fn lemma_resolved_image(image: Seq<char>, config: Option<ContainerConfigView>)
    ensures
        resolved_config(image, config).Image == match config {
            Some(given) => if given.Image.len() == 0 {
                image
            } else {
                given.Image
            },
            None => image,
        },
        config matches Some(given) ==> resolved_config(image, config) == (ContainerConfigView {
            Image: resolved_config(image, config).Image,
            ..given
        }),
        config is None ==> resolved_config(image, config) == (ContainerConfigView {
            Image: image,
            ..ContainerConfigView::blank()
        }),
{
}

impl Container {
    /// A container of which the identity, the image, both or neither are known.
    pub fn new(Id: Option<String>, Image: Option<String>) -> (container: Container)
        ensures
            container@ == (ContainerView {
                Id: text_or_empty(Id),
                Image: text_or_empty(Image),
                ..ContainerView::blank()
            }),
    {
        let mut container = Container::default();
        match Id {
            Some(id) => {
                container.Id = id;
            },
            None => {},
        }
        match Image {
            Some(image) => {
                container.Image = image;
            },
            None => {},
        }
        container
    }

    /// Settles the configuration that a create request carries.
    pub fn resolve_config(&self, config: Option<ContainerConfig>) -> (resolved: ContainerConfig)
        ensures
            resolved@ == resolved_config(self.Image@, config.deep_view()),
    {
        match config {
            Some(given) => {
                if given.Image.as_str().is_empty() {
                    let mut resolved = given;
                    resolved.Image = self.Image.clone();
                    resolved
                } else {
                    given
                }
            },
            None => {
                let mut resolved = ContainerConfig::default();
                resolved.Image = self.Image.clone();
                resolved
            },
        }
    }

    /// The query string of a create request.
    pub fn create_params(name: Option<String>) -> (params: String)
        ensures
            params@ == create_params(name),
    {
        let mut params = String::from_str("?name=");
        match name {
            Some(n) => {
                params.append(n.as_str());
            },
            None => {},
        }
        params
    }

    /// The body of a create request: the settled configuration as JSON text.
    pub fn create_body(&self, config: Option<ContainerConfig>) -> (r: Result<
        String,
        DockerApiError,
    >)
        ensures
            match json_text(
                ContainerConfig::encoded(resolved_config(self.Image@, config.deep_view())),
            ) {
                Some(text) => r matches Ok(body) && body@ == text,
                None => r matches Err(DockerApiError::JsonSerializationError(e)) && e is Syntax,
            },
    {
        let resolved = self.resolve_config(config);
        request_body(&resolved.to_json())
    }

    /// What the answer to a create request means: on 201 the container that
    /// the body describes.
    pub fn create_result(res: Response) -> (r: Result<Container, DockerApiError>)
        ensures
            is_record::<Container>(res, 201, r),
    {
        decode_response::<Container>(res, 201)
    }

    /// Creates the container on the daemon, under `name` and from `config`,
    /// and gives the container as the daemon describes it.
    pub fn create<C: Client>(
        &self,
        client: &C,
        name: Option<String>,
        config: Option<ContainerConfig>,
    ) -> (r: Result<Container, DockerApiError>)
        ensures
            match json_text(
                ContainerConfig::encoded(resolved_config(self.Image@, config.deep_view())),
            ) {
                Some(body) => is_record_exchange::<Container, C>(
                    client,
                    "/containers/create"@ + create_params(name),
                    Method::POST,
                    Some(body),
                    201,
                    r,
                ),
                None => r matches Err(DockerApiError::JsonSerializationError(e)) && e is Syntax,
            },
    {
        let params = Container::create_params(name);
        let body = match self.create_body(config) {
            Ok(body) => body,
            Err(e) => {
                return Err(e);
            },
        };
        let reply = client.get_response_from_api(
            "/containers/create",
            Method::POST,
            Some(params.as_str()),
            Some(body.as_str()),
        );
        assert(is_exchange(
            client,
            "/containers/create"@ + create_params(name),
            Method::POST,
            Some(body@),
            reply,
        ));
        decode_reply::<Container>(reply, 201)
    }

    /// What the answer to a list request means: on 200 the containers that
    /// the body lists, in its order.
    pub fn list_result(res: Response) -> (r: Result<Vec<Container>, DockerApiError>)
        ensures
            is_record::<Vec<Container>>(res, 200, r),
    {
        decode_response::<Vec<Container>>(res, 200)
    }

    /// Lists all containers, running or not, with their sizes.
    pub fn list<C: Client>(client: &C) -> (r: Result<Vec<Container>, DockerApiError>)
        ensures
            is_record_exchange::<Vec<Container>, C>(
                client,
                "/containers/json"@ + "?all=true&size=true"@,
                Method::GET,
                None,
                200,
                r,
            ),
    {
        let reply = get_response_from_api_static(
            client,
            "/containers/json",
            Method::GET,
            Some("?all=true&size=true"),
            None,
        );
        assert(is_exchange(
            client,
            "/containers/json"@ + "?all=true&size=true"@,
            Method::GET,
            None,
            reply,
        ));
        decode_reply::<Vec<Container>>(reply, 200)
    }

    /// Where `action` is asked for on this container.
    pub fn action_endpoint(&self, action: &str) -> (endpoint: String)
        ensures
            endpoint@ == action_endpoint(self.Id@, action@),
    {
        let mut endpoint = String::from_str("/containers/");
        endpoint.append(self.Id.as_str());
        endpoint.append("/");
        endpoint.append(action);
        endpoint
    }

    /// What the answer to `action` means: on 204 the confirmation, whatever
    /// the body holds.
    pub fn action_result(res: Response, action: &str) -> (r: Result<String, DockerApiError>)
        ensures
            is_confirmation(res, 204, action_confirmation(action@), r),
    {
        let mut text = String::from_str("Operation ");
        text.append(action);
        text.append(" run correctly");
        confirm_response(res, 204, text.as_str())
    }

    /// Asks the daemon for `action` on this container.
    pub fn container_action<C: Client>(&self, client: &C, action: &str) -> (r: Result<
        String,
        DockerApiError,
    >)
        ensures
            is_confirmed_exchange(
                client,
                action_endpoint(self.Id@, action@),
                Method::POST,
                None,
                204,
                action_confirmation(action@),
                r,
            ),
    {
        let endpoint = self.action_endpoint(action);
        let reply = client.get_response_from_api(endpoint.as_str(), Method::POST, None, None);
        assert(is_exchange(client, action_endpoint(self.Id@, action@), Method::POST, None, reply));
        match reply {
            Ok(res) => Container::action_result(res, action),
            Err(e) => Err(e),
        }
    }

    /// Starts the container.
    pub fn start<C: Client>(&self, client: &C) -> (r: Result<String, DockerApiError>)
        ensures
            is_confirmed_exchange(
                client,
                action_endpoint(self.Id@, "start"@),
                Method::POST,
                None,
                204,
                action_confirmation("start"@),
                r,
            ),
    {
        self.container_action(client, "start")
    }

    /// Stops the container.
    pub fn stop<C: Client>(&self, client: &C) -> (r: Result<String, DockerApiError>)
        ensures
            is_confirmed_exchange(
                client,
                action_endpoint(self.Id@, "stop"@),
                Method::POST,
                None,
                204,
                action_confirmation("stop"@),
                r,
            ),
    {
        self.container_action(client, "stop")
    }

    /// Restarts the container.
    pub fn restart<C: Client>(&self, client: &C) -> (r: Result<String, DockerApiError>)
        ensures
            is_confirmed_exchange(
                client,
                action_endpoint(self.Id@, "restart"@),
                Method::POST,
                None,
                204,
                action_confirmation("restart"@),
                r,
            ),
    {
        self.container_action(client, "restart")
    }

    /// Kills the container.
    pub fn kill<C: Client>(&self, client: &C) -> (r: Result<String, DockerApiError>)
        ensures
            is_confirmed_exchange(
                client,
                action_endpoint(self.Id@, "kill"@),
                Method::POST,
                None,
                204,
                action_confirmation("kill"@),
                r,
            ),
    {
        self.container_action(client, "kill")
    }

    /// Pauses the container.
    pub fn pause<C: Client>(&self, client: &C) -> (r: Result<String, DockerApiError>)
        ensures
            is_confirmed_exchange(
                client,
                action_endpoint(self.Id@, "pause"@),
                Method::POST,
                None,
                204,
                action_confirmation("pause"@),
                r,
            ),
    {
        self.container_action(client, "pause")
    }

    /// Lets a paused container go on.
    pub fn unpause<C: Client>(&self, client: &C) -> (r: Result<String, DockerApiError>)
        ensures
            is_confirmed_exchange(
                client,
                action_endpoint(self.Id@, "unpause"@),
                Method::POST,
                None,
                204,
                action_confirmation("unpause"@),
                r,
            ),
    {
        self.container_action(client, "unpause")
    }

    /// Where this container is removed.
    pub fn remove_endpoint(&self) -> (endpoint: String)
        ensures
            endpoint@ == remove_endpoint(self.Id@),
    {
        let mut endpoint = String::from_str("/containers/");
        endpoint.append(self.Id.as_str());
        endpoint
    }

    /// What the answer to a remove request means: on 204 the confirmation.
    pub fn remove_result(res: Response) -> (r: Result<String, DockerApiError>)
        ensures
            is_confirmation(res, 204, remove_confirmation(), r),
    {
        confirm_response(res, 204, "Container deleted correctly")
    }

    /// Removes the container from the daemon. The record is given up with
    /// the call: nothing can be asked of a removed container.
    pub fn remove<C: Client>(self, client: &C) -> (r: Result<String, DockerApiError>)
        ensures
            is_confirmed_exchange(
                client,
                remove_endpoint(self.Id@),
                Method::DELETE,
                None,
                204,
                remove_confirmation(),
                r,
            ),
    {
        let endpoint = self.remove_endpoint();
        let reply = client.get_response_from_api(endpoint.as_str(), Method::DELETE, None, None);
        assert(is_exchange(client, remove_endpoint(self.Id@), Method::DELETE, None, reply));
        confirm_reply(reply, 204, "Container deleted correctly")
    }
}

} // verus!
