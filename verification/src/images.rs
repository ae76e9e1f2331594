//! Images: the records the daemon reports and the operations that pull,
//! list and remove them.
#![allow(non_snake_case)]

use crate::codec::member_or;
use crate::codec::optional_member;
use crate::codec::read_member;
use crate::codec::read_optional_member;
use crate::codec::encoded_optional;
use crate::codec::lemma_member_round_trip;
use crate::codec::lemma_optional_round_trip;
use crate::codec::valid_optional;
use crate::codec::member;
use crate::codec::optional_to_json;
use crate::codec::Decode;
use crate::codec::Encode;
use crate::codec::RoundTrip;
use crate::codec::StringMap;
use crate::docker::decode_reply;
use crate::docker::decode_response;
use crate::docker::errors::DockerApiError;
use crate::docker::errors::JsonError;
use crate::docker::expect_status;
use crate::docker::get_response_from_api_static;
use crate::docker::is_record;
use crate::docker::is_exchange;
use crate::docker::is_record_exchange;
use crate::docker::Client;
use crate::docker::Method;
use crate::docker::Response;
use crate::json::lemma_object_view;
use crate::json::members_view;
use crate::json::Json;
use crate::json::JsonView;
use crate::json::Member;
use vstd::prelude::*;
use vstd::string::StringExecFns;

verus! {

// ---------------------------------------------------------------------------
// Image
// ---------------------------------------------------------------------------
/// An image as the daemon reports it.
#[derive(Debug)]
pub struct Image {
    pub Id: String,
    pub ParentId: String,
    pub RepoTags: Option<Vec<String>>,
    pub RepoDigests: Option<Vec<String>>,
    pub Created: u64,
    pub Size: u64,
    pub VirtualSize: u64,
    pub SharedSize: i64,
    pub Labels: Option<StringMap>,
    pub Containers: i32,
}

/// A [`Image`] as plain values.
pub struct ImageView {
    pub Id: Seq<char>,
    pub ParentId: Seq<char>,
    pub RepoTags: Option<Seq<Seq<char>>>,
    pub RepoDigests: Option<Seq<Seq<char>>>,
    pub Created: u64,
    pub Size: u64,
    pub VirtualSize: u64,
    pub SharedSize: i64,
    pub Labels: Option<Seq<(Seq<char>, Seq<char>)>>,
    pub Containers: i32,
}

impl ImageView {
    /// The image of which nothing is known.
    pub open spec fn blank() -> ImageView {
        ImageView {
            Id: Seq::empty(),
            ParentId: Seq::empty(),
            RepoTags: None,
            RepoDigests: None,
            Created: 0,
            Size: 0,
            VirtualSize: 0,
            SharedSize: 0,
            Labels: None,
            Containers: 0,
        }
    }
}

impl DeepView for Image {
    type V = ImageView;

    open spec fn deep_view(&self) -> ImageView {
        ImageView {
            Id: self.Id@,
            ParentId: self.ParentId@,
            RepoTags: self.RepoTags.deep_view(),
            RepoDigests: self.RepoDigests.deep_view(),
            Created: self.Created,
            Size: self.Size,
            VirtualSize: self.VirtualSize,
            SharedSize: self.SharedSize,
            Labels: self.Labels.deep_view(),
            Containers: self.Containers,
        }
    }
}

impl View for Image {
    type V = ImageView;

    open spec fn view(&self) -> ImageView {
        self.deep_view()
    }
}

impl Default for Image {
    fn default() -> (r: Image)
        ensures
            r@ == ImageView::blank(),
    {
        let r = Image {
            Id: String::new(),
            ParentId: String::new(),
            RepoTags: None,
            RepoDigests: None,
            Created: 0,
            Size: 0,
            VirtualSize: 0,
            SharedSize: 0,
            Labels: None,
            Containers: 0,
        };
        r
    }
}

impl Decode for Image {
    open spec fn decoded(document: JsonView) -> Option<ImageView> {
        match document {
            JsonView::Object(m) => {
                let id = member_or::<String>(m, "Id"@, Seq::empty());
                let parent_id = member_or::<String>(m, "ParentId"@, Seq::empty());
                let repo_tags = optional_member::<Vec<String>>(m, "RepoTags"@);
                let repo_digests = optional_member::<Vec<String>>(m, "RepoDigests"@);
                let created = member_or::<u64>(m, "Created"@, 0);
                let size = member_or::<u64>(m, "Size"@, 0);
                let virtual_size = member_or::<u64>(m, "VirtualSize"@, 0);
                let shared_size = member_or::<i64>(m, "SharedSize"@, 0);
                let labels = optional_member::<StringMap>(m, "Labels"@);
                let containers = member_or::<i32>(m, "Containers"@, 0);
                if id is Some && parent_id is Some && repo_tags is Some && repo_digests is Some && created is Some && size is Some && virtual_size is Some && shared_size is Some && labels is Some && containers is Some {
                    Some(
                        ImageView {
                            Id: id->Some_0,
                            ParentId: parent_id->Some_0,
                            RepoTags: repo_tags->Some_0,
                            RepoDigests: repo_digests->Some_0,
                            Created: created->Some_0,
                            Size: size->Some_0,
                            VirtualSize: virtual_size->Some_0,
                            SharedSize: shared_size->Some_0,
                            Labels: labels->Some_0,
                            Containers: containers->Some_0,
                        },
                    )
                } else {
                    None
                }
            },
            _ => None,
        }
    }

    fn from_json(document: &Json) -> (r: Result<Image, JsonError>) {
        match document {
            Json::Object(members) => {
                proof {
                    lemma_object_view(*members);
                }
                let id = match read_member::<String>(members, "Id", String::new()) {
                    Ok(v) => v,
                    Err(e) => {
                        return Err(e);
                    },
                };
                let parent_id = match read_member::<String>(members, "ParentId", String::new()) {
                    Ok(v) => v,
                    Err(e) => {
                        return Err(e);
                    },
                };
                let repo_tags = match read_optional_member::<Vec<String>>(members, "RepoTags") {
                    Ok(v) => v,
                    Err(e) => {
                        return Err(e);
                    },
                };
                let repo_digests = match read_optional_member::<Vec<String>>(members, "RepoDigests") {
                    Ok(v) => v,
                    Err(e) => {
                        return Err(e);
                    },
                };
                let created = match read_member::<u64>(members, "Created", 0) {
                    Ok(v) => v,
                    Err(e) => {
                        return Err(e);
                    },
                };
                let size = match read_member::<u64>(members, "Size", 0) {
                    Ok(v) => v,
                    Err(e) => {
                        return Err(e);
                    },
                };
                let virtual_size = match read_member::<u64>(members, "VirtualSize", 0) {
                    Ok(v) => v,
                    Err(e) => {
                        return Err(e);
                    },
                };
                let shared_size = match read_member::<i64>(members, "SharedSize", 0) {
                    Ok(v) => v,
                    Err(e) => {
                        return Err(e);
                    },
                };
                let labels = match read_optional_member::<StringMap>(members, "Labels") {
                    Ok(v) => v,
                    Err(e) => {
                        return Err(e);
                    },
                };
                let containers = match read_member::<i32>(members, "Containers", 0) {
                    Ok(v) => v,
                    Err(e) => {
                        return Err(e);
                    },
                };
                Ok(
                    Image {
                        Id: id,
                        ParentId: parent_id,
                        RepoTags: repo_tags,
                        RepoDigests: repo_digests,
                        Created: created,
                        Size: size,
                        VirtualSize: virtual_size,
                        SharedSize: shared_size,
                        Labels: labels,
                        Containers: containers,
                    },
                )
            },
            _ => Err(JsonError::UnexpectedShape),
        }
    }
}

impl Encode for Image {
    open spec fn encoded(value: ImageView) -> JsonView {
        JsonView::Object(
            seq![
                ("Id"@, String::encoded(value.Id)),
                ("ParentId"@, String::encoded(value.ParentId)),
                ("RepoTags"@, encoded_optional::<Vec<String>>(value.RepoTags)),
                ("RepoDigests"@, encoded_optional::<Vec<String>>(value.RepoDigests)),
                ("Created"@, u64::encoded(value.Created)),
                ("Size"@, u64::encoded(value.Size)),
                ("VirtualSize"@, u64::encoded(value.VirtualSize)),
                ("SharedSize"@, i64::encoded(value.SharedSize)),
                ("Labels"@, encoded_optional::<StringMap>(value.Labels)),
                ("Containers"@, i32::encoded(value.Containers)),
            ],
        )
    }

    fn to_json(&self) -> (document: Json) {
        let mut members: Vec<Member> = Vec::new();
        members.push(member("Id", self.Id.to_json()));
        members.push(member("ParentId", self.ParentId.to_json()));
        members.push(member("RepoTags", optional_to_json::<Vec<String>>(&self.RepoTags)));
        members.push(member("RepoDigests", optional_to_json::<Vec<String>>(&self.RepoDigests)));
        members.push(member("Created", self.Created.to_json()));
        members.push(member("Size", self.Size.to_json()));
        members.push(member("VirtualSize", self.VirtualSize.to_json()));
        members.push(member("SharedSize", self.SharedSize.to_json()));
        members.push(member("Labels", optional_to_json::<StringMap>(&self.Labels)));
        members.push(member("Containers", self.Containers.to_json()));
        proof {
            lemma_object_view(members);
            assert(members_view(members@) =~= Image::encoded(self.deep_view())->Object_0);
        }
        Json::Object(members)
    }
}

impl RoundTrip for Image {
    open spec fn valid(value: ImageView) -> bool {
        String::valid(value.Id)
            && String::valid(value.ParentId)
            && valid_optional::<Vec<String>>(value.RepoTags)
            && valid_optional::<Vec<String>>(value.RepoDigests)
            && u64::valid(value.Created)
            && u64::valid(value.Size)
            && u64::valid(value.VirtualSize)
            && i64::valid(value.SharedSize)
            && valid_optional::<StringMap>(value.Labels)
            && i32::valid(value.Containers)
    }

    proof fn round_trip(value: ImageView) {
        let m = Image::encoded(value)->Object_0;
        reveal_strlit("Id");
        assert("Id"@ =~= seq!['I', 'd']);
        reveal_strlit("ParentId");
        assert("ParentId"@ =~= seq!['P', 'a', 'r', 'e', 'n', 't', 'I', 'd']);
        reveal_strlit("RepoTags");
        assert("RepoTags"@ =~= seq!['R', 'e', 'p', 'o', 'T', 'a', 'g', 's']);
        reveal_strlit("RepoDigests");
        assert("RepoDigests"@ =~= seq!['R', 'e', 'p', 'o', 'D', 'i', 'g', 'e', 's', 't', 's']);
        reveal_strlit("Created");
        assert("Created"@ =~= seq!['C', 'r', 'e', 'a', 't', 'e', 'd']);
        reveal_strlit("Size");
        assert("Size"@ =~= seq!['S', 'i', 'z', 'e']);
        reveal_strlit("VirtualSize");
        assert("VirtualSize"@ =~= seq!['V', 'i', 'r', 't', 'u', 'a', 'l', 'S', 'i', 'z', 'e']);
        reveal_strlit("SharedSize");
        assert("SharedSize"@ =~= seq!['S', 'h', 'a', 'r', 'e', 'd', 'S', 'i', 'z', 'e']);
        reveal_strlit("Labels");
        assert("Labels"@ =~= seq!['L', 'a', 'b', 'e', 'l', 's']);
        reveal_strlit("Containers");
        assert("Containers"@ =~= seq!['C', 'o', 'n', 't', 'a', 'i', 'n', 'e', 'r', 's']);
        lemma_member_round_trip::<String>(m, "Id"@, 0, value.Id, Seq::empty());
        lemma_member_round_trip::<String>(m, "ParentId"@, 1, value.ParentId, Seq::empty());
        lemma_optional_round_trip::<Vec<String>>(m, "RepoTags"@, 2, value.RepoTags);
        lemma_optional_round_trip::<Vec<String>>(m, "RepoDigests"@, 3, value.RepoDigests);
        lemma_member_round_trip::<u64>(m, "Created"@, 4, value.Created, 0);
        lemma_member_round_trip::<u64>(m, "Size"@, 5, value.Size, 0);
        lemma_member_round_trip::<u64>(m, "VirtualSize"@, 6, value.VirtualSize, 0);
        lemma_member_round_trip::<i64>(m, "SharedSize"@, 7, value.SharedSize, 0);
        lemma_optional_round_trip::<StringMap>(m, "Labels"@, 8, value.Labels);
        lemma_member_round_trip::<i32>(m, "Containers"@, 9, value.Containers, 0);
    }
}

/// An object without members is read as the record with nothing set.
pub proof fn lemma_image_without_members()
    ensures
        Image::decoded(JsonView::Object(Seq::empty())) == Some(ImageView::blank()),
{
}

// ---------------------------------------------------------------------------
// ImageStatus
// ---------------------------------------------------------------------------
/// A line of progress that the daemon reports while it works on an image.
#[derive(Debug)]
pub struct ImageStatus {
    pub status: String,
}

/// A [`ImageStatus`] as plain values.
pub struct ImageStatusView {
    pub status: Seq<char>,
}

impl ImageStatusView {
    /// The line that says nothing.
    pub open spec fn blank() -> ImageStatusView {
        ImageStatusView {
            status: Seq::empty(),
        }
    }
}

impl DeepView for ImageStatus {
    type V = ImageStatusView;

    open spec fn deep_view(&self) -> ImageStatusView {
        ImageStatusView {
            status: self.status@,
        }
    }
}

impl View for ImageStatus {
    type V = ImageStatusView;

    open spec fn view(&self) -> ImageStatusView {
        self.deep_view()
    }
}

impl Decode for ImageStatus {
    open spec fn decoded(document: JsonView) -> Option<ImageStatusView> {
        match document {
            JsonView::Object(m) => {
                let status = member_or::<String>(m, "status"@, Seq::empty());
                if status is Some {
                    Some(
                        ImageStatusView {
                            status: status->Some_0,
                        },
                    )
                } else {
                    None
                }
            },
            _ => None,
        }
    }

    fn from_json(document: &Json) -> (r: Result<ImageStatus, JsonError>) {
        match document {
            Json::Object(members) => {
                proof {
                    lemma_object_view(*members);
                }
                let status = match read_member::<String>(members, "status", String::new()) {
                    Ok(v) => v,
                    Err(e) => {
                        return Err(e);
                    },
                };
                Ok(
                    ImageStatus {
                        status: status,
                    },
                )
            },
            _ => Err(JsonError::UnexpectedShape),
        }
    }
}

impl Encode for ImageStatus {
    open spec fn encoded(value: ImageStatusView) -> JsonView {
        JsonView::Object(
            seq![
                ("status"@, String::encoded(value.status)),
            ],
        )
    }

    fn to_json(&self) -> (document: Json) {
        let mut members: Vec<Member> = Vec::new();
        members.push(member("status", self.status.to_json()));
        proof {
            lemma_object_view(members);
            assert(members_view(members@) =~= ImageStatus::encoded(self.deep_view())->Object_0);
        }
        Json::Object(members)
    }
}

impl RoundTrip for ImageStatus {
    open spec fn valid(value: ImageStatusView) -> bool {
        String::valid(value.status)
    }

    proof fn round_trip(value: ImageStatusView) {
        let m = ImageStatus::encoded(value)->Object_0;
        reveal_strlit("status");
        assert("status"@ =~= seq!['s', 't', 'a', 't', 'u', 's']);
        lemma_member_round_trip::<String>(m, "status"@, 0, value.status, Seq::empty());
    }
}

/// An object without members is read as the record with nothing set.
pub proof fn lemma_image_status_without_members()
    ensures
        ImageStatus::decoded(JsonView::Object(Seq::empty())) == Some(ImageStatusView::blank()),
{
}

// ---------------------------------------------------------------------------
// DeletedImage
// ---------------------------------------------------------------------------
/// One effect of removing an image: a tag taken off, or a layer deleted.
#[derive(Debug)]
pub struct DeletedImage {
    pub Untagged: Option<String>,
    pub Deleted: Option<String>,
}

/// A [`DeletedImage`] as plain values.
pub struct DeletedImageView {
    pub Untagged: Option<Seq<char>>,
    pub Deleted: Option<Seq<char>>,
}

impl DeletedImageView {
    /// The effect that is none.
    pub open spec fn blank() -> DeletedImageView {
        DeletedImageView {
            Untagged: None,
            Deleted: None,
        }
    }
}

impl DeepView for DeletedImage {
    type V = DeletedImageView;

    open spec fn deep_view(&self) -> DeletedImageView {
        DeletedImageView {
            Untagged: self.Untagged.deep_view(),
            Deleted: self.Deleted.deep_view(),
        }
    }
}

impl View for DeletedImage {
    type V = DeletedImageView;

    open spec fn view(&self) -> DeletedImageView {
        self.deep_view()
    }
}

impl Decode for DeletedImage {
    open spec fn decoded(document: JsonView) -> Option<DeletedImageView> {
        match document {
            JsonView::Object(m) => {
                let untagged = optional_member::<String>(m, "Untagged"@);
                let deleted = optional_member::<String>(m, "Deleted"@);
                if untagged is Some && deleted is Some {
                    Some(
                        DeletedImageView {
                            Untagged: untagged->Some_0,
                            Deleted: deleted->Some_0,
                        },
                    )
                } else {
                    None
                }
            },
            _ => None,
        }
    }

    fn from_json(document: &Json) -> (r: Result<DeletedImage, JsonError>) {
        match document {
            Json::Object(members) => {
                proof {
                    lemma_object_view(*members);
                }
                let untagged = match read_optional_member::<String>(members, "Untagged") {
                    Ok(v) => v,
                    Err(e) => {
                        return Err(e);
                    },
                };
                let deleted = match read_optional_member::<String>(members, "Deleted") {
                    Ok(v) => v,
                    Err(e) => {
                        return Err(e);
                    },
                };
                Ok(
                    DeletedImage {
                        Untagged: untagged,
                        Deleted: deleted,
                    },
                )
            },
            _ => Err(JsonError::UnexpectedShape),
        }
    }
}

impl Encode for DeletedImage {
    open spec fn encoded(value: DeletedImageView) -> JsonView {
        JsonView::Object(
            seq![
                ("Untagged"@, encoded_optional::<String>(value.Untagged)),
                ("Deleted"@, encoded_optional::<String>(value.Deleted)),
            ],
        )
    }

    fn to_json(&self) -> (document: Json) {
        let mut members: Vec<Member> = Vec::new();
        members.push(member("Untagged", optional_to_json::<String>(&self.Untagged)));
        members.push(member("Deleted", optional_to_json::<String>(&self.Deleted)));
        proof {
            lemma_object_view(members);
            assert(members_view(members@) =~= DeletedImage::encoded(self.deep_view())->Object_0);
        }
        Json::Object(members)
    }
}

impl RoundTrip for DeletedImage {
    open spec fn valid(value: DeletedImageView) -> bool {
        valid_optional::<String>(value.Untagged)
            && valid_optional::<String>(value.Deleted)
    }

    proof fn round_trip(value: DeletedImageView) {
        let m = DeletedImage::encoded(value)->Object_0;
        reveal_strlit("Untagged");
        assert("Untagged"@ =~= seq!['U', 'n', 't', 'a', 'g', 'g', 'e', 'd']);
        reveal_strlit("Deleted");
        assert("Deleted"@ =~= seq!['D', 'e', 'l', 'e', 't', 'e', 'd']);
        lemma_optional_round_trip::<String>(m, "Untagged"@, 0, value.Untagged);
        lemma_optional_round_trip::<String>(m, "Deleted"@, 1, value.Deleted);
    }
}

/// An object without members is read as the record with nothing set.
pub proof fn lemma_deleted_image_without_members()
    ensures
        DeletedImage::decoded(JsonView::Object(Seq::empty())) == Some(DeletedImageView::blank()),
{
}

// ---------------------------------------------------------------------------
// Operations
// ---------------------------------------------------------------------------
/// Where a new image comes from.
#[derive(Debug, Clone, Copy)]
pub enum Source {
    /// A registry image, by name.
    Image,
    /// An archive, by URL.
    Src,
    /// A repository.
    Repo,
}

/// The query parameter that names the source.
pub open spec fn source_param(source: Source) -> Seq<char> {
    match source {
        Source::Image => "?fromImage="@,
        Source::Src => "?fromSrc="@,
        Source::Repo => "?repo="@,
    }
}

/// The query parameter that names the tag: `latest` where none is given.
pub open spec fn tag_param(tag: Option<String>) -> Seq<char> {
    match tag {
        Some(t) => "&tag="@ + t@,
        None => "&tag=latest"@,
    }
}

/// The query string of a create request.
pub open spec fn create_params(source: Source, value: Seq<char>, tag: Option<String>) -> Seq<char> {
    source_param(source) + value + tag_param(tag)
}

/// Where the image `id` is removed.
pub open spec fn remove_endpoint(id: Seq<char>) -> Seq<char> {
    "/images/"@ + id
}

/// What a response means to a create request for `value`: on 200 the image
/// known by `value` and nothing else, on any other code the error with the
/// code and body received.
pub open spec fn is_created(res: Response, value: Seq<char>, r: Result<Image, DockerApiError>) -> bool {
    if res.status_code == 200 {
        r matches Ok(image) && image@ == (ImageView { Id: value, ..ImageView::blank() })
    } else {
        r == Err::<Image, DockerApiError>(
            DockerApiError::InvalidApiResponseError(res.status_code, res.body),
        )
    }
}

/// [`is_created`] for the outcome of an exchange: a failure to get a response
/// is handed on as it is.
pub open spec fn is_created_reply(
    reply: Result<Response, DockerApiError>,
    value: Seq<char>,
    r: Result<Image, DockerApiError>,
) -> bool {
    match reply {
        Ok(res) => is_created(res, value, r),
        Err(e) => r == Err::<Image, DockerApiError>(e),
    }
}

/// What a create request for `value` gives that is made through `client`.
pub open spec fn is_created_exchange<C: Client>(
    client: &C,
    source: Source,
    value: Seq<char>,
    tag: Option<String>,
    r: Result<Image, DockerApiError>,
) -> bool {
    exists|reply: Result<Response, DockerApiError>| #[trigger]
        is_exchange(
            client,
            "/images/create"@ + create_params(source, value, tag),
            Method::POST,
            None,
            reply,
        ) && is_created_reply(reply, value, r)
}

/// No response with another status code than 200 is taken for a created
/// image: what comes out is the error with the code and body received.
pub proof fn lemma_other_status_creates_nothing(
    res: Response,
    value: Seq<char>,
    r: Result<Image, DockerApiError>,
)
    requires
        res.status_code != 200,
        is_created(res, value, r),
    ensures
        r == Err::<Image, DockerApiError>(
            DockerApiError::InvalidApiResponseError(res.status_code, res.body),
        ),
{
}

impl Image {
    /// The query string of a create request.
    pub fn create_params(source: Source, value: &str, tag: Option<String>) -> (params: String)
        ensures
            params@ == create_params(source, value@, tag),
    {
        let mut params = match source {
            Source::Image => String::from_str("?fromImage="),
            Source::Src => String::from_str("?fromSrc="),
            Source::Repo => String::from_str("?repo="),
        };
        let ghost head = params@;
        params.append(value);
        match tag {
            Some(t) => {
                params.append("&tag=");
                params.append(t.as_str());
                assert(params@ =~= head + value@ + ("&tag="@ + t@));
            },
            None => {
                params.append("&tag=latest");
            },
        }
        params
    }

    /// What the answer to a create request for `value` means.
    pub fn create_result(res: Response, value: String) -> (r: Result<Image, DockerApiError>)
        ensures
            is_created(res, value@, r),
    {
        match expect_status(res, 200) {
            Ok(_) => {
                let mut image = Image::default();
                image.Id = value;
                Ok(image)
            },
            Err(e) => Err(e),
        }
    }

    /// Has the daemon make the image `value` with the tag `tag` from `source`.
    pub fn create<C: Client>(client: &C, source: Source, value: String, tag: Option<String>) -> (r:
        Result<Image, DockerApiError>)
        ensures
            is_created_exchange(client, source, value@, tag, r),
    {
        let params = Image::create_params(source, value.as_str(), tag);
        let reply = get_response_from_api_static(
            client,
            "/images/create",
            Method::POST,
            Some(params.as_str()),
            None,
        );
        assert(is_exchange(
            client,
            "/images/create"@ + create_params(source, value@, tag),
            Method::POST,
            None,
            reply,
        ));
        match reply {
            Ok(res) => Image::create_result(res, value),
            Err(e) => Err(e),
        }
    }

    /// Pulls the image `image` with the tag `tag` from the registry.
    pub fn pull<C: Client>(client: &C, image: String, tag: Option<String>) -> (r: Result<
        Image,
        DockerApiError,
    >)
        ensures
            is_created_exchange(client, Source::Image, image@, tag, r),
    {
        Image::create(client, Source::Image, image, tag)
    }

    /// What the answer to a list request means: on 200 the images that the
    /// body lists, in its order.
    pub fn list_result(res: Response) -> (r: Result<Vec<Image>, DockerApiError>)
        ensures
            is_record::<Vec<Image>>(res, 200, r),
    {
        decode_response::<Vec<Image>>(res, 200)
    }

    /// Lists the images that the daemon holds.
    pub fn list<C: Client>(client: &C) -> (r: Result<Vec<Image>, DockerApiError>)
        ensures
            is_record_exchange::<Vec<Image>, C>(client, "/images/json"@, Method::GET, None, 200, r),
    {
        let reply = get_response_from_api_static(client, "/images/json", Method::GET, None, None);
        assert(is_exchange(client, "/images/json"@, Method::GET, None, reply));
        decode_reply::<Vec<Image>>(reply, 200)
    }

    /// Where this image is removed.
    pub fn remove_endpoint(&self) -> (endpoint: String)
        ensures
            endpoint@ == remove_endpoint(self.Id@),
    {
        let mut endpoint = String::from_str("/images/");
        endpoint.append(self.Id.as_str());
        endpoint
    }

    /// What the answer to a remove request means: on 200 the effects that
    /// the body lists, in its order.
    pub fn remove_result(res: Response) -> (r: Result<Vec<DeletedImage>, DockerApiError>)
        ensures
            is_record::<Vec<DeletedImage>>(res, 200, r),
    {
        decode_response::<Vec<DeletedImage>>(res, 200)
    }

    /// Removes the image from the daemon and says what that did. The record
    /// is given up with the call.
    pub fn remove<C: Client>(self, client: &C) -> (r: Result<Vec<DeletedImage>, DockerApiError>)
        ensures
            is_record_exchange::<Vec<DeletedImage>, C>(
                client,
                remove_endpoint(self.Id@),
                Method::DELETE,
                None,
                200,
                r,
            ),
    {
        let endpoint = self.remove_endpoint();
        let reply = client.get_response_from_api(endpoint.as_str(), Method::DELETE, None, None);
        assert(is_exchange(client, remove_endpoint(self.Id@), Method::DELETE, None, reply));
        decode_reply::<Vec<DeletedImage>>(reply, 200)
    }
}

} // verus!
