use vstd::prelude::*;
use vstd::string::*;

use crate::json::{field, get_field, into_field, json_document, parse_json, JsonValue};
use crate::text::{concat_str, lemma_replace_absent, lemma_replace_present_shortens, occurs_in, lemma_split_at_separator, lemma_split_nonempty, lemma_split_without_separator, replace_all, replace_seq, split_on, split_seq, str_views};

verus! {

/// An image of the Docker registry: its repository name, its tag and the
/// local files of the layers recorded so far.
#[derive(Debug)]
pub struct Image {
    pub name: String,
    pub tag: String,
    pub fs_layers: Vec<String>,
}

/// The repository part of `name:tag`: the text before the first colon.
pub open spec fn image_name_of(name_and_tag: Seq<char>) -> Seq<char> {
    split_seq(name_and_tag, ':')[0]
}

/// The tag part of `name:tag`: the text between the first and second colon,
/// or `latest` when there is no colon.
pub open spec fn image_tag_of(name_and_tag: Seq<char>) -> Seq<char> {
    let parts = split_seq(name_and_tag, ':');
    if parts.len() < 2 {
        "latest"@
    } else {
        parts[1]
    }
}

/// The URL that hands out a pull token for `repository`.
pub open spec fn auth_url_of(repository: Seq<char>) -> Seq<char> {
    "https://auth.docker.io/token?service=registry.docker.io&scope=repository:"@ + repository
        + ":pull"@
}

/// The URL of the manifest of `repository` at `tag`.
pub open spec fn manifests_url_of(repository: Seq<char>, tag: Seq<char>) -> Seq<char> {
    "https://registry.hub.docker.com/v2/"@ + repository + "/manifests/"@ + tag
}

/// The URL of the blob `blob_sum` of `repository`.
pub open spec fn blob_url_of(repository: Seq<char>, blob_sum: Seq<char>) -> Seq<char> {
    "https://registry.hub.docker.com/v2/"@ + repository + "/blobs/"@ + blob_sum
}

/// The local file that holds the layer `blob_sum`: its digest without the
/// `sha256:` prefix, under `/tmp`, as a gzipped tarball.
pub open spec fn layer_file_of(blob_sum: Seq<char>) -> Seq<char> {
    "/tmp/"@ + replace_seq(blob_sum, "sha256:"@, ""@) + ".tar.gz"@
}

/// Where a layer comes from and where it goes.
pub struct LayerDownload {
    /// The local file of the layer.
    pub file: String,
    /// The registry URL of its blob.
    pub url: String,
}

/// Why a layer of a manifest cannot be fetched.
#[derive(PartialEq, Eq, Structural, Debug, Clone, Copy)]
pub enum LayerError {
    /// The layer names no `blobSum` string.
    BlobSumNotFound,
}

impl Image {
    /// An image from `name` or `name:tag`; the tag is `latest` when none is given.
    pub fn new(name_and_tag: &str) -> (image: Image)
        ensures
            image.name@ == image_name_of(name_and_tag@),
            image.tag@ == image_tag_of(name_and_tag@),
            image.fs_layers@.len() == 0,
    {
        let n = split_on(name_and_tag, ':');
        proof {
            lemma_split_nonempty(name_and_tag@, ':');
            assert(str_views(n@)[0] == n@[0]@);
        }
        let name = String::from_str(n[0]);
        let tag = if n.len() < 2 {
            String::from_str("latest")
        } else {
            assert(str_views(n@)[1] == n@[1]@);
            String::from_str(n[1])
        };
        Image { name, tag, fs_layers: Vec::new() }
    }

    /// The URL that hands out a token to pull this image.
    pub fn auth_url(&self) -> (url: String)
        ensures
            url@ == auth_url_of(self.name@),
    {
        let url = concat_str("https://auth.docker.io/token?service=registry.docker.io&scope=repository:", self.name.as_str());
        concat_str(url.as_str(), ":pull")
    }

    /// The URL of the manifest of this image.
    pub fn manifests_url(&self) -> (url: String)
        ensures
            url@ == manifests_url_of(self.name@, self.tag@),
    {
        let url = concat_str("https://registry.hub.docker.com/v2/", self.name.as_str());
        let url = concat_str(url.as_str(), "/manifests/");
        concat_str(url.as_str(), self.tag.as_str())
    }

    /// The URL of the blob `blob_sum` of this image.
    pub fn blob_url(&self, blob_sum: &str) -> (url: String)
        ensures
            url@ == blob_url_of(self.name@, blob_sum@),
    {
        let url = concat_str("https://registry.hub.docker.com/v2/", self.name.as_str());
        let url = concat_str(url.as_str(), "/blobs/");
        concat_str(url.as_str(), blob_sum)
    }

    /// Records the layer `fs_layer` of a manifest: when it names a `blobSum`,
    /// its local file is appended to `fs_layers` and the file and the blob's URL
    /// are returned; otherwise nothing changes.
    pub fn add_layer(&mut self, fs_layer: &JsonValue) -> (r: Result<LayerDownload, LayerError>)
        ensures
            final(self).name == old(self).name,
            final(self).tag == old(self).tag,
            match field(*fs_layer, "blobSum"@) {
                JsonValue::String(blob_sum) => {
                    &&& r matches Ok(d)
                    &&& d.file@ == layer_file_of(blob_sum@)
                    &&& d.url@ == blob_url_of(old(self).name@, blob_sum@)
                    &&& final(self).fs_layers@ == old(self).fs_layers@.push(d.file)
                },
                _ => r == Err::<LayerDownload, LayerError>(LayerError::BlobSumNotFound)
                    && final(self).fs_layers@ == old(self).fs_layers@,
            },
    {
        match get_field(fs_layer, "blobSum") {
            Some(JsonValue::String(blob_sum)) => {
                proof {
                    reveal_strlit("sha256:");
                }
                let digest = replace_all(blob_sum.as_str(), "sha256:", "");
                let file = concat_str("/tmp/", digest.as_str());
                let file = concat_str(file.as_str(), ".tar.gz");
                self.fs_layers.push(file.clone());
                let url = self.blob_url(blob_sum.as_str());
                Ok(LayerDownload { file, url })
            },
            _ => Err(LayerError::BlobSumNotFound),
        }
    }
}

/// The blob sum that a layer of a manifest names, if it names one as a string.
pub open spec fn layer_blob(layer: JsonValue) -> Option<Seq<char>> {
    match field(layer, "blobSum"@) {
        JsonValue::String(b) => Some(b@),
        _ => None,
    }
}

/// The layers of a manifest as recorded: where each comes from and goes to,
/// for the layers before the first one that names no blob sum, and the error
/// when there is such a layer.
pub struct LayerPlan {
    pub downloads: Vec<LayerDownload>,
    pub error: Option<LayerError>,
}

/// The local files of `downloads`.
pub open spec fn download_files(downloads: Seq<LayerDownload>) -> Seq<String> {
    downloads.map_values(|d: LayerDownload| d.file)
}

impl Image {
    /// Records the layers of a manifest in order, as `add_layer` does one by
    /// one, up to the first layer that names no blob sum.
    pub fn record_layers(&mut self, layers: &Vec<JsonValue>) -> (plan: LayerPlan)
        ensures
            final(self).name == old(self).name,
            final(self).tag == old(self).tag,
            plan.downloads@.len() <= layers@.len(),
            forall|j: int| 0 <= j < plan.downloads@.len() ==> {
                &&& #[trigger] layer_blob(layers@[j]) is Some
                &&& plan.downloads@[j].file@ == layer_file_of(layer_blob(layers@[j])->0)
                &&& plan.downloads@[j].url@ == blob_url_of(old(self).name@, layer_blob(layers@[j])->0)
            },
            plan.error is None <==> plan.downloads@.len() == layers@.len(),
            plan.error is Some ==> plan.error == Some(LayerError::BlobSumNotFound)
                && layer_blob(layers@[plan.downloads@.len() as int]) is None,
            final(self).fs_layers@ == old(self).fs_layers@ + download_files(plan.downloads@),
    {
        let mut downloads: Vec<LayerDownload> = Vec::new();
        let mut i: usize = 0;
        let ghost name = self.name@;
        while i < layers.len()
            invariant
                i == downloads@.len(),
                i <= layers@.len(),
                self.name@ == name,
                self.name == old(self).name,
                self.tag == old(self).tag,
                forall|j: int| 0 <= j < downloads@.len() ==> {
                    &&& #[trigger] layer_blob(layers@[j]) is Some
                    &&& downloads@[j].file@ == layer_file_of(layer_blob(layers@[j])->0)
                    &&& downloads@[j].url@ == blob_url_of(name, layer_blob(layers@[j])->0)
                },
                self.fs_layers@ == old(self).fs_layers@ + download_files(downloads@),
            decreases layers.len() - i,
        {
            let ghost before = downloads@;
            let ghost files_before = self.fs_layers@;
            match self.add_layer(&layers[i]) {
                Ok(d) => {
                    downloads.push(d);
                    assert(download_files(downloads@) =~= download_files(before).push(downloads@[i as int].file));
                    assert(self.fs_layers@ =~= old(self).fs_layers@ + download_files(downloads@));
                },
                Err(e) => {
                    return LayerPlan { downloads, error: Some(e) };
                },
            }
            i = i + 1;
        }
        LayerPlan { downloads, error: None }
    }
}

/// Why an answer of the registry gives no token or no layers.
#[derive(PartialEq, Eq, Structural, Debug, Clone, Copy)]
pub enum AnswerError {
    /// The answer is no JSON document.
    NotJson,
    /// The document has no `token` string.
    NoToken,
    /// The document has no `fsLayers` array.
    NoLayers,
}

/// The pull token in the text of an answer of the token service.
pub fn token_in_answer(text: &str) -> (r: Result<String, AnswerError>)
    ensures
        match json_document(text@) {
            None => r == Err::<String, AnswerError>(AnswerError::NotJson),
            Some(b) => match field(b, "token"@) {
                JsonValue::String(t) => r matches Ok(s) && s@ == t@,
                _ => r == Err::<String, AnswerError>(AnswerError::NoToken),
            },
        },
{
    match parse_json(text) {
        None => Err(AnswerError::NotJson),
        Some(body) => match token_of(&body) {
            Some(t) => Ok(t),
            None => Err(AnswerError::NoToken),
        },
    }
}

/// The layers in the text of a manifest.
pub fn layers_in_manifest(text: &str) -> (r: Result<Vec<JsonValue>, AnswerError>)
    ensures
        match json_document(text@) {
            None => r == Err::<Vec<JsonValue>, AnswerError>(AnswerError::NotJson),
            Some(b) => match field(b, "fsLayers"@) {
                JsonValue::Array(a) => r matches Ok(l) && l@ == a@,
                _ => r == Err::<Vec<JsonValue>, AnswerError>(AnswerError::NoLayers),
            },
        },
{
    match parse_json(text) {
        None => Err(AnswerError::NotJson),
        Some(body) => match into_field(body, "fsLayers") {
            Some(JsonValue::Array(a)) => Ok(a),
            _ => Err(AnswerError::NoLayers),
        },
    }
}

/// The pull token of an answer of the token service: its `token` member, when
/// that is a string.
pub fn token_of(body: &JsonValue) -> (token: Option<String>)
    ensures
        match field(*body, "token"@) {
            JsonValue::String(t) => token matches Some(s) && s@ == t@,
            _ => token is None,
        },
{
    match get_field(body, "token") {
        Some(JsonValue::String(t)) => Some(t.clone()),
        _ => None,
    }
}

/// The layers of a manifest: its `fsLayers` member, when that is an array.
pub fn fs_layers_of(body: &JsonValue) -> (layers: Option<&Vec<JsonValue>>)
    ensures
        match field(*body, "fsLayers"@) {
            JsonValue::Array(a) => layers matches Some(l) && l@ == a@,
            _ => layers is None,
        },
{
    match get_field(body, "fsLayers") {
        Some(JsonValue::Array(a)) => Some(a),
        _ => None,
    }
}

/// A name without a colon names the `latest` tag of that repository.
pub proof fn law_image_default_tag(name: Seq<char>)
    requires
        !name.contains(':'),
    ensures
        image_name_of(name) == name,
        image_tag_of(name) == "latest"@,
{
    lemma_split_without_separator(name, ':');
}

/// `name:tag` names the repository `name` at the tag `tag`, when neither holds a
/// colon.
pub proof fn law_image_name_and_tag(name: Seq<char>, tag: Seq<char>)
    requires
        !name.contains(':'),
        !tag.contains(':'),
    ensures
        image_name_of(name.push(':') + tag) == name,
        image_tag_of(name.push(':') + tag) == tag,
{
    lemma_split_at_separator(name, ':', tag);
    lemma_split_without_separator(name, ':');
    lemma_split_without_separator(tag, ':');
}

/// A layer whose blob sum is `sha256:` followed by a digest is kept in
/// `/tmp/<digest>.tar.gz`, exactly when `sha256:` does not occur in the digest
/// again.
pub proof fn law_layer_file_of_digest(digest: Seq<char>)
    ensures
        layer_file_of("sha256:"@ + digest) == "/tmp/"@ + digest + ".tar.gz"@ <==> !occurs_in(digest, "sha256:"@),
{
    reveal_strlit("sha256:");
    reveal_strlit("");
    let pat = "sha256:"@;
    let s = pat + digest;
    assert(s.take(7) =~= pat);
    assert(s.skip(7) =~= digest);
    let empty = ""@;
    assert(empty =~= Seq::<char>::empty());
    assert(replace_seq(s, pat, empty) == empty + replace_seq(digest, pat, empty));
    assert(empty + replace_seq(digest, pat, empty) =~= replace_seq(digest, pat, empty));
    if occurs_in(digest, pat) {
        lemma_replace_present_shortens(digest, pat);
        let r = replace_seq(digest, pat, empty);
        if "/tmp/"@ + r + ".tar.gz"@ == "/tmp/"@ + digest + ".tar.gz"@ {
            assert(("/tmp/"@ + r + ".tar.gz"@).len() == ("/tmp/"@ + digest + ".tar.gz"@).len());
        }
    } else {
        lemma_replace_absent(digest, pat, empty);
    }
}

} // verus!
