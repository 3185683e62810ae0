use vstd::prelude::*;

use crate::json::{escape_token, json_at, json_quoted, node_at, push_token, quote, JsonNode, JsonShape};
use crate::model::{
    AWSCredentials, AzureCredentials, Config, Credentials, CredentialsProfile, DeployProfile,
    GCPCredentials,
};
use crate::resolve::ResolveError;

verus! {

/// Texts joined by commas.
pub open spec fn joined(parts: Seq<Seq<char>>) -> Seq<char>
    decreases parts.len(),
{
    if parts.len() == 0 {
        Seq::empty()
    } else if parts.len() == 1 {
        parts[0]
    } else {
        joined(parts.drop_last()) + ","@ + parts.last()
    }
}

/// The texts of a vector of strings.
pub open spec fn texts(v: Seq<String>) -> Seq<Seq<char>> {
    v.map_values(|s: String| s@)
}

/// Appends the parts, joined by commas.
fn append_joined(out: &mut String, parts: &Vec<String>)
    ensures
        final(out)@ == old(out)@ + joined(texts(parts@)),
{
    let ghost start = out@;
    let mut i: usize = 0;
    proof {
        assert(texts(parts@.take(0)) =~= Seq::<Seq<char>>::empty());
        assert(out@ =~= start + joined(texts(parts@.take(0))));
    }
    while i < parts.len()
        invariant
            i <= parts.len(),
            out@ == start + joined(texts(parts@.take(i as int))),
        decreases parts.len() - i,
    {
        let ghost before = out@;
        if i > 0 {
            out.append(",");
        }
        out.append(parts[i].as_str());
        proof {
            let t = texts(parts@.take(i + 1));
            assert(t.drop_last() =~= texts(parts@.take(i as int)));
            assert(t.last() == parts@[i as int]@);
            if i == 0 {
                assert(t =~= seq![parts@[0]@]);
            }
            assert(out@ =~= start + joined(t));
        }
        i = i + 1;
    }
    proof {
        assert(parts@.take(parts.len() as int) =~= parts@);
    }
}

/// The JSON text of a set of credentials: an object with the fields of its provider.
pub open spec fn credentials_json(c: Credentials) -> Seq<char> {
    match c {
        Credentials::GCP(g) => "{\"privateKey\":"@ + json_quoted(g.private_key@) + ",\"clientEmail\":"@
            + json_quoted(g.client_email@) + ",\"projectId\":"@ + json_quoted(g.project_id@) + "}"@,
        Credentials::AWS(a) => "{\"accessKeyId\":"@ + json_quoted(a.access_key_id@)
            + ",\"secretAccessKey\":"@ + json_quoted(a.secret_access_key@) + "}"@,
        Credentials::Azure(z) => "{\"applicationId\":"@ + json_quoted(z.application_id@)
            + ",\"secret\":"@ + json_quoted(z.secret@) + ",\"subscriptionId\":"@ + json_quoted(
            z.subscription_id@,
        ) + ",\"directoryId\":"@ + json_quoted(z.directory_id@) + "}"@,
    }
}

/// Writes a set of credentials as JSON.
pub fn credentials_to_json(c: &Credentials) -> (r: String)
    ensures
        r@ == credentials_json(*c),
{
    match c {
        Credentials::GCP(g) => {
            let mut s = String::from_str("{\"privateKey\":");
            s.append(quote(g.private_key.as_str()).as_str());
            s.append(",\"clientEmail\":");
            s.append(quote(g.client_email.as_str()).as_str());
            s.append(",\"projectId\":");
            s.append(quote(g.project_id.as_str()).as_str());
            s.append("}");
            s
        },
        Credentials::AWS(a) => {
            let mut s = String::from_str("{\"accessKeyId\":");
            s.append(quote(a.access_key_id.as_str()).as_str());
            s.append(",\"secretAccessKey\":");
            s.append(quote(a.secret_access_key.as_str()).as_str());
            s.append("}");
            s
        },
        Credentials::Azure(z) => {
            let mut s = String::from_str("{\"applicationId\":");
            s.append(quote(z.application_id.as_str()).as_str());
            s.append(",\"secret\":");
            s.append(quote(z.secret.as_str()).as_str());
            s.append(",\"subscriptionId\":");
            s.append(quote(z.subscription_id.as_str()).as_str());
            s.append(",\"directoryId\":");
            s.append(quote(z.directory_id.as_str()).as_str());
            s.append("}");
            s
        },
    }
}

/// The JSON text of a credential profile.
pub open spec fn profile_json(p: CredentialsProfile) -> Seq<char> {
    "{\"credentials\":"@ + credentials_json(p.credentials) + ",\"cloudProvider\":"@ + json_quoted(
        p.cloud_provider@,
    ) + "}"@
}

/// The JSON text of a configuration.
pub open spec fn config_json(c: Config) -> Seq<char> {
    "{\"credentials\":"@ + credentials_json(c.credentials) + ",\"region\":"@ + json_quoted(
        c.region@,
    ) + ",\"cloudProvider\":"@ + json_quoted(c.cloud_provider@) + ",\"vmType\":"@ + json_quoted(
        c.vm_type@,
    ) + "}"@
}

/// The JSON text of a deploy profile row.
pub open spec fn row_json(r: DeployProfile) -> Seq<char> {
    "{\"credentialProfile\":"@ + match r.credential_profile {
        Some(name) => json_quoted(name@),
        None => "null"@,
    } + ",\"region\":"@ + json_quoted(r.region@) + ",\"vmType\":"@ + json_quoted(r.vm_type@)
        + "}"@
}

fn profile_to_json(p: &CredentialsProfile) -> (r: String)
    ensures
        r@ == profile_json(*p),
{
    let mut s = String::from_str("{\"credentials\":");
    s.append(credentials_to_json(&p.credentials).as_str());
    s.append(",\"cloudProvider\":");
    s.append(quote(p.cloud_provider.as_str()).as_str());
    s.append("}");
    s
}

/// Writes a configuration as JSON.
pub fn config_to_json(c: &Config) -> (r: String)
    ensures
        r@ == config_json(*c),
{
    let mut s = String::from_str("{\"credentials\":");
    s.append(credentials_to_json(&c.credentials).as_str());
    s.append(",\"region\":");
    s.append(quote(c.region.as_str()).as_str());
    s.append(",\"cloudProvider\":");
    s.append(quote(c.cloud_provider.as_str()).as_str());
    s.append(",\"vmType\":");
    s.append(quote(c.vm_type.as_str()).as_str());
    s.append("}");
    s
}

fn row_to_json(r: &DeployProfile) -> (out: String)
    ensures
        out@ == row_json(*r),
{
    let mut s = String::from_str("{\"credentialProfile\":");
    match &r.credential_profile {
        Some(name) => s.append(quote(name.as_str()).as_str()),
        None => s.append("null"),
    }
    s.append(",\"region\":");
    s.append(quote(r.region.as_str()).as_str());
    s.append(",\"vmType\":");
    s.append(quote(r.vm_type.as_str()).as_str());
    s.append("}");
    s
}

/// A member of a JSON object: the quoted name, a colon, and the value.
pub open spec fn member_json(name: Seq<char>, value: Seq<char>) -> Seq<char> {
    json_quoted(name) + ":"@ + value
}

/// The JSON text of the credential-profile store: an object from profile names to
/// profiles, in the order of the entries.
pub open spec fn credentials_file_json(entries: Seq<(String, CredentialsProfile)>) -> Seq<char> {
    "{"@ + joined(
        Seq::new(entries.len(), |i: int| member_json(entries[i].0@, profile_json(entries[i].1))),
    ) + "}"@
}

/// The JSON text of a list of rows.
pub open spec fn rows_json(rows: Seq<DeployProfile>) -> Seq<char> {
    "["@ + joined(Seq::new(rows.len(), |i: int| row_json(rows[i]))) + "]"@
}

/// The JSON text of the deploy-profile store: an object from profile names to lists of
/// rows, in the order of the entries.
pub open spec fn deploy_file_json(entries: Seq<(String, Vec<DeployProfile>)>) -> Seq<char> {
    "{"@ + joined(
        Seq::new(entries.len(), |i: int| member_json(entries[i].0@, rows_json(entries[i].1@))),
    ) + "}"@
}

/// The JSON text of a list of configurations.
pub open spec fn configs_json(configs: Seq<Config>) -> Seq<char> {
    "["@ + joined(Seq::new(configs.len(), |i: int| config_json(configs[i]))) + "]"@
}

/// The JSON text of resolved deploy profiles: an object from profile names to lists of
/// configurations.
pub open spec fn resolved_json(entries: Seq<(String, Vec<Config>)>) -> Seq<char> {
    "{"@ + joined(
        Seq::new(entries.len(), |i: int| member_json(entries[i].0@, configs_json(entries[i].1@))),
    ) + "}"@
}

fn member_to_json(name: &String, value: String) -> (r: String)
    ensures
        r@ == member_json(name@, value@),
{
    let mut m = quote(name.as_str());
    m.append(":");
    m.append(value.as_str());
    m
}

/// Writes the credential-profile store as JSON.
pub fn update_cred_file(entries: &Vec<(String, CredentialsProfile)>) -> (r: String)
    ensures
        r@ == credentials_file_json(entries@),
{
    let mut parts: Vec<String> = Vec::new();
    let mut i: usize = 0;
    while i < entries.len()
        invariant
            i <= entries.len(),
            parts.len() == i,
            forall|j: int|
                0 <= j < i ==> (#[trigger] parts@[j])@ == member_json(
                    entries@[j].0@,
                    profile_json(entries@[j].1),
                ),
        decreases entries.len() - i,
    {
        let m = member_to_json(&entries[i].0, profile_to_json(&entries[i].1));
        parts.push(m);
        i = i + 1;
    }
    let mut out = String::from_str("{");
    append_joined(&mut out, &parts);
    out.append("}");
    proof {
        assert(texts(parts@) =~= Seq::new(
            entries.len() as nat,
            |i: int| member_json(entries@[i].0@, profile_json(entries@[i].1)),
        ));
    }
    out
}

fn rows_to_json(rows: &Vec<DeployProfile>) -> (r: String)
    ensures
        r@ == rows_json(rows@),
{
    let mut parts: Vec<String> = Vec::new();
    let mut i: usize = 0;
    while i < rows.len()
        invariant
            i <= rows.len(),
            parts.len() == i,
            forall|j: int| 0 <= j < i ==> (#[trigger] parts@[j])@ == row_json(rows@[j]),
        decreases rows.len() - i,
    {
        parts.push(row_to_json(&rows[i]));
        i = i + 1;
    }
    let mut out = String::from_str("[");
    append_joined(&mut out, &parts);
    out.append("]");
    proof {
        assert(texts(parts@) =~= Seq::new(rows.len() as nat, |i: int| row_json(rows@[i])));
    }
    out
}

/// Writes the deploy-profile store as JSON.
pub fn update_anycloud_file(entries: &Vec<(String, Vec<DeployProfile>)>) -> (r: String)
    ensures
        r@ == deploy_file_json(entries@),
{
    let mut parts: Vec<String> = Vec::new();
    let mut i: usize = 0;
    while i < entries.len()
        invariant
            i <= entries.len(),
            parts.len() == i,
            forall|j: int|
                0 <= j < i ==> (#[trigger] parts@[j])@ == member_json(
                    entries@[j].0@,
                    rows_json(entries@[j].1@),
                ),
        decreases entries.len() - i,
    {
        let m = member_to_json(&entries[i].0, rows_to_json(&entries[i].1));
        parts.push(m);
        i = i + 1;
    }
    let mut out = String::from_str("{");
    append_joined(&mut out, &parts);
    out.append("}");
    proof {
        assert(texts(parts@) =~= Seq::new(
            entries.len() as nat,
            |i: int| member_json(entries@[i].0@, rows_json(entries@[i].1@)),
        ));
    }
    out
}

fn configs_to_json(configs: &Vec<Config>) -> (r: String)
    ensures
        r@ == configs_json(configs@),
{
    let mut parts: Vec<String> = Vec::new();
    let mut i: usize = 0;
    while i < configs.len()
        invariant
            i <= configs.len(),
            parts.len() == i,
            forall|j: int| 0 <= j < i ==> (#[trigger] parts@[j])@ == config_json(configs@[j]),
        decreases configs.len() - i,
    {
        parts.push(config_to_json(&configs[i]));
        i = i + 1;
    }
    let mut out = String::from_str("[");
    append_joined(&mut out, &parts);
    out.append("]");
    proof {
        assert(texts(parts@) =~= Seq::new(configs.len() as nat, |i: int| config_json(configs@[i])));
    }
    out
}

/// Writes resolved deploy profiles as JSON.
pub fn resolved_to_json(entries: &Vec<(String, Vec<Config>)>) -> (r: String)
    ensures
        r@ == resolved_json(entries@),
{
    let mut parts: Vec<String> = Vec::new();
    let mut i: usize = 0;
    while i < entries.len()
        invariant
            i <= entries.len(),
            parts.len() == i,
            forall|j: int|
                0 <= j < i ==> (#[trigger] parts@[j])@ == member_json(
                    entries@[j].0@,
                    configs_json(entries@[j].1@),
                ),
        decreases entries.len() - i,
    {
        let m = member_to_json(&entries[i].0, configs_to_json(&entries[i].1));
        parts.push(m);
        i = i + 1;
    }
    let mut out = String::from_str("{");
    append_joined(&mut out, &parts);
    out.append("}");
    proof {
        assert(texts(parts@) =~= Seq::new(
            entries.len() as nat,
            |i: int| member_json(entries@[i].0@, configs_json(entries@[i].1@)),
        ));
    }
    out
}

/// The decimal digit of a number below ten.
pub open spec fn digit(d: nat) -> char {
    "0123456789"@[d as int]
}

/// The decimal numeral of a number, without leading zeros.
pub open spec fn decimal(n: nat) -> Seq<char>
    decreases n,
{
    if n < 10 {
        seq![digit(n)]
    } else {
        decimal(n / 10).push(digit(n % 10))
    }
}

/// Appends the decimal numeral of `n`.
pub(crate) fn push_decimal(out: &mut String, n: usize)
    ensures
        final(out)@ == old(out)@ + decimal(n as nat),
    decreases n,
{
    if n >= 10 {
        push_decimal(out, n / 10);
    }
    let d = n % 10;
    let digits = "0123456789";
    proof {
        reveal_strlit("0123456789");
    }
    out.append(digits.substring_char(d, d + 1));
    proof {
        assert(digits@.subrange(d as int, d + 1) =~= seq![digit(d as nat)]);
        if n >= 10 {
            assert(decimal(n as nat) == decimal((n / 10) as nat).push(digit((n % 10) as nat)));
        }
        assert(final(out)@ =~= old(out)@ + decimal(n as nat));
    }
}

/// The text at a pointer, when a string stands there.
pub open spec fn text_at(text: Seq<char>, pointer: Seq<char>) -> Option<Seq<char>> {
    match json_at(text, pointer) {
        JsonShape::Text(s) => Some(s),
        _ => None,
    }
}

/// Reads the string at `base` followed by `suffix`.
fn text_field(text: &str, base: &String, suffix: &str) -> (r: Option<String>)
    ensures
        match r {
            Some(s) => text_at(text@, base@ + suffix@) == Some(s@),
            None => text_at(text@, base@ + suffix@) is None,
        },
{
    let mut pointer = base.clone();
    pointer.append(suffix);
    match node_at(text, pointer.as_str()) {
        JsonNode::Text(s) => Some(s),
        _ => None,
    }
}

/// The pointer to the member of the root object named `key`.
pub open spec fn member_pointer(key: Seq<char>) -> Seq<char> {
    seq!['/'] + escape_token(key)
}

/// Whether credentials of the provider `label` can be read at `p`: every field of that
/// provider is a string.
pub open spec fn credentials_readable(text: Seq<char>, p: Seq<char>, label: Seq<char>) -> bool {
    if label == "AWS"@ {
        &&& text_at(text, p + "/credentials/accessKeyId"@) is Some
        &&& text_at(text, p + "/credentials/secretAccessKey"@) is Some
    } else if label == "GCP"@ {
        &&& text_at(text, p + "/credentials/privateKey"@) is Some
        &&& text_at(text, p + "/credentials/clientEmail"@) is Some
        &&& text_at(text, p + "/credentials/projectId"@) is Some
    } else if label == "Azure"@ {
        &&& text_at(text, p + "/credentials/applicationId"@) is Some
        &&& text_at(text, p + "/credentials/secret"@) is Some
        &&& text_at(text, p + "/credentials/subscriptionId"@) is Some
        &&& text_at(text, p + "/credentials/directoryId"@) is Some
    } else {
        false
    }
}

/// Whether `c` holds the credentials of the provider `label` that stand at `p`.
pub open spec fn credentials_read(
    text: Seq<char>,
    p: Seq<char>,
    label: Seq<char>,
    c: Credentials,
) -> bool {
    if label == "AWS"@ {
        &&& c is AWS
        &&& text_at(text, p + "/credentials/accessKeyId"@) == Some(c->AWS_0.access_key_id@)
        &&& text_at(text, p + "/credentials/secretAccessKey"@) == Some(
            c->AWS_0.secret_access_key@,
        )
    } else if label == "GCP"@ {
        &&& c is GCP
        &&& text_at(text, p + "/credentials/privateKey"@) == Some(c->GCP_0.private_key@)
        &&& text_at(text, p + "/credentials/clientEmail"@) == Some(c->GCP_0.client_email@)
        &&& text_at(text, p + "/credentials/projectId"@) == Some(c->GCP_0.project_id@)
    } else if label == "Azure"@ {
        &&& c is Azure
        &&& text_at(text, p + "/credentials/applicationId"@) == Some(c->Azure_0.application_id@)
        &&& text_at(text, p + "/credentials/secret"@) == Some(c->Azure_0.secret@)
        &&& text_at(text, p + "/credentials/subscriptionId"@) == Some(
            c->Azure_0.subscription_id@,
        )
        &&& text_at(text, p + "/credentials/directoryId"@) == Some(c->Azure_0.directory_id@)
    } else {
        false
    }
}

/// Reads the credentials of the provider `label` at `p`. The provider label is the tag
/// that tells the variants apart.
fn read_credentials(text: &str, p: &String, label: &String) -> (r: Option<Credentials>)
    ensures
        r is Some <==> credentials_readable(text@, p@, label@),
        r matches Some(c) ==> credentials_read(text@, p@, label@, c),
{
    if *label == String::from_str("AWS") {
        let a = text_field(text, p, "/credentials/accessKeyId");
        let b = text_field(text, p, "/credentials/secretAccessKey");
        match (a, b) {
            (Some(a), Some(b)) => Some(
                Credentials::AWS(AWSCredentials { access_key_id: a, secret_access_key: b }),
            ),
            _ => None,
        }
    } else if *label == String::from_str("GCP") {
        let a = text_field(text, p, "/credentials/privateKey");
        let b = text_field(text, p, "/credentials/clientEmail");
        let c = text_field(text, p, "/credentials/projectId");
        match (a, b, c) {
            (Some(a), Some(b), Some(c)) => Some(
                Credentials::GCP(
                    GCPCredentials { private_key: a, client_email: b, project_id: c },
                ),
            ),
            _ => None,
        }
    } else if *label == String::from_str("Azure") {
        let a = text_field(text, p, "/credentials/applicationId");
        let b = text_field(text, p, "/credentials/secret");
        let c = text_field(text, p, "/credentials/subscriptionId");
        let d = text_field(text, p, "/credentials/directoryId");
        match (a, b, c, d) {
            (Some(a), Some(b), Some(c), Some(d)) => Some(
                Credentials::Azure(
                    AzureCredentials {
                        application_id: a,
                        secret: b,
                        subscription_id: c,
                        directory_id: d,
                    },
                ),
            ),
            _ => None,
        }
    } else {
        None
    }
}

/// Whether a credential profile can be read at `p`: a provider label, and the fields of
/// that provider.
pub open spec fn profile_readable(text: Seq<char>, p: Seq<char>) -> bool {
    match text_at(text, p + "/cloudProvider"@) {
        Some(label) => credentials_readable(text, p, label),
        None => false,
    }
}

/// Whether `prof` is the credential profile that stands at `p`.
pub open spec fn profile_read(text: Seq<char>, p: Seq<char>, prof: CredentialsProfile) -> bool {
    &&& text_at(text, p + "/cloudProvider"@) == Some(prof.cloud_provider@)
    &&& credentials_read(text, p, prof.cloud_provider@, prof.credentials)
}

fn read_profile(text: &str, p: &String) -> (r: Option<CredentialsProfile>)
    ensures
        r is Some <==> profile_readable(text@, p@),
        r matches Some(prof) ==> profile_read(text@, p@, prof),
{
    match text_field(text, p, "/cloudProvider") {
        None => None,
        Some(label) => match read_credentials(text, p, &label) {
            Some(credentials) => Some(CredentialsProfile { credentials, cloud_provider: label }),
            None => None,
        },
    }
}

/// The names of the members of the root object, when the text is an object.
pub open spec fn root_keys(text: Seq<char>) -> Option<Seq<Seq<char>>> {
    match json_at(text, Seq::empty()) {
        JsonShape::Object(keys) => Some(keys),
        _ => None,
    }
}

/// Whether a text is a credential-profile store: an object whose every member is a
/// credential profile.
pub open spec fn credentials_file_valid(text: Seq<char>) -> bool {
    match root_keys(text) {
        Some(keys) => forall|i: int|
            0 <= i < keys.len() ==> profile_readable(text, member_pointer(#[trigger] keys[i])),
        None => false,
    }
}

/// Whether `entries` are the credential profiles of a store text: one per member of the
/// root object, in the order of the members, named as the member.
pub open spec fn credentials_file_read(
    text: Seq<char>,
    entries: Seq<(String, CredentialsProfile)>,
) -> bool {
    let keys = root_keys(text)->Some_0;
    &&& root_keys(text) is Some
    &&& entries.len() == keys.len()
    &&& forall|i: int|
        0 <= i < entries.len() ==> {
            &&& (#[trigger] entries[i]).0@ == keys[i]
            &&& profile_read(text, member_pointer(keys[i]), entries[i].1)
        }
}

/// Reads the credential-profile store from its JSON text: one entry per member of the
/// root object, in the order the parser gives them.
pub fn get_creds(text: &str) -> (r: Result<Vec<(String, CredentialsProfile)>, ResolveError>)
    ensures
        r is Ok <==> credentials_file_valid(text@),
        r matches Err(e) ==> e == ResolveError::CredentialsFileInvalid,
        r matches Ok(v) ==> credentials_file_read(text@, v@),
{
    let keys = match node_at(text, "") {
        JsonNode::Object(keys) => keys,
        _ => {
            proof {
                reveal_strlit("");
                assert(""@ =~= Seq::<char>::empty());
            }
            return Err(ResolveError::CredentialsFileInvalid);
        },
    };
    proof {
        reveal_strlit("");
        assert(""@ =~= Seq::<char>::empty());
    }
    let ghost kv = keys@.map_values(|k: String| k@);
    let mut out: Vec<(String, CredentialsProfile)> = Vec::new();
    let mut i: usize = 0;
    while i < keys.len()
        invariant
            root_keys(text@) == Some(kv),
            kv == keys@.map_values(|k: String| k@),
            i <= keys.len(),
            out.len() == i,
            forall|j: int|
                0 <= j < i ==> {
                    &&& (#[trigger] out@[j]).0@ == kv[j]
                    &&& profile_read(text@, member_pointer(kv[j]), out@[j].1)
                },
            forall|j: int| 0 <= j < i ==> profile_readable(text@, member_pointer(#[trigger] kv[j])),
        decreases keys.len() - i,
    {
        let mut p = String::new();
        push_token(&mut p, keys[i].as_str());
        proof {
            assert(p@ =~= member_pointer(kv[i as int]));
        }
        match read_profile(text, &p) {
            Some(prof) => {
                out.push((keys[i].clone(), prof));
            },
            None => {
                proof {
                    assert(!profile_readable(text@, member_pointer(kv[i as int])));
                    if credentials_file_valid(text@) {
                        let ks = root_keys(text@)->Some_0;
                        assert(ks == kv);
                        assert(profile_readable(text@, member_pointer(ks[i as int])));
                    }
                }
                return Err(ResolveError::CredentialsFileInvalid);
            },
        }
        i = i + 1;
    }
    Ok(out)
}

/// The pointer to the row at `index` of the list at `p`.
pub open spec fn row_pointer(p: Seq<char>, index: nat) -> Seq<char> {
    p + "/"@ + decimal(index)
}

/// Whether a deploy profile row can be read at `p`: a region, a machine type, and a
/// credential profile name that is a string, null or absent.
pub open spec fn row_readable(text: Seq<char>, p: Seq<char>) -> bool {
    &&& text_at(text, p + "/region"@) is Some
    &&& text_at(text, p + "/vmType"@) is Some
    &&& {
        let c = json_at(text, p + "/credentialProfile"@);
        c is Text || c is Null || c is Missing
    }
}

/// Whether `row` is the deploy profile row that stands at `p`.
pub open spec fn row_read(text: Seq<char>, p: Seq<char>, row: DeployProfile) -> bool {
    &&& text_at(text, p + "/region"@) == Some(row.region@)
    &&& text_at(text, p + "/vmType"@) == Some(row.vm_type@)
    &&& match json_at(text, p + "/credentialProfile"@) {
        JsonShape::Text(name) => row.credential_profile matches Some(m) && m@ == name,
        _ => row.credential_profile is None,
    }
}

fn read_row(text: &str, p: &String) -> (r: Option<DeployProfile>)
    ensures
        r is Some <==> row_readable(text@, p@),
        r matches Some(row) ==> row_read(text@, p@, row),
{
    let region = text_field(text, p, "/region");
    let vm_type = text_field(text, p, "/vmType");
    let mut cp = p.clone();
    cp.append("/credentialProfile");
    let credential_profile = match node_at(text, cp.as_str()) {
        JsonNode::Text(name) => Some(name),
        JsonNode::Null => None,
        JsonNode::Missing => None,
        _ => {
            return None;
        },
    };
    match (region, vm_type) {
        (Some(region), Some(vm_type)) => Some(DeployProfile { credential_profile, region, vm_type }),
        _ => None,
    }
}

/// Whether the rows of a deploy profile can be read at `p`: a list of rows.
pub open spec fn rows_readable(text: Seq<char>, p: Seq<char>) -> bool {
    match json_at(text, p) {
        JsonShape::List(n) => forall|j: nat| j < n ==> row_readable(text, #[trigger] row_pointer(p, j)),
        _ => false,
    }
}

/// Whether `rows` are the rows of the deploy profile at `p`, in order.
pub open spec fn rows_read(text: Seq<char>, p: Seq<char>, rows: Seq<DeployProfile>) -> bool {
    &&& json_at(text, p) == JsonShape::List(rows.len())
    &&& forall|j: int| 0 <= j < rows.len() ==> row_read(text, row_pointer(p, j as nat), #[trigger] rows[j])
}

fn read_rows(text: &str, p: &String) -> (r: Option<Vec<DeployProfile>>)
    ensures
        r is Some <==> rows_readable(text@, p@),
        r matches Some(rows) ==> rows_read(text@, p@, rows@),
{
    let n = match node_at(text, p.as_str()) {
        JsonNode::List(n) => n,
        _ => {
            return None;
        },
    };
    let mut rows: Vec<DeployProfile> = Vec::new();
    let mut j: usize = 0;
    while j < n
        invariant
            json_at(text@, p@) == JsonShape::List(n as nat),
            j <= n,
            rows.len() == j,
            forall|k: int| 0 <= k < j ==> row_read(text@, row_pointer(p@, k as nat), #[trigger] rows@[k]),
            forall|k: nat| k < j ==> row_readable(text@, #[trigger] row_pointer(p@, k)),
        decreases n - j,
    {
        let mut rp = p.clone();
        rp.append("/");
        push_decimal(&mut rp, j);
        proof {
            assert(rp@ =~= row_pointer(p@, j as nat));
        }
        match read_row(text, &rp) {
            Some(row) => {
                rows.push(row);
            },
            None => {
                proof {
                    if rows_readable(text@, p@) {
                        assert(row_readable(text@, row_pointer(p@, j as nat)));
                    }
                }
                return None;
            },
        }
        j = j + 1;
    }
    Some(rows)
}

/// Whether a text is a deploy-profile store: an object whose every member is a list of
/// deploy profile rows.
pub open spec fn deploy_file_valid(text: Seq<char>) -> bool {
    match root_keys(text) {
        Some(keys) => forall|i: int|
            0 <= i < keys.len() ==> rows_readable(text, member_pointer(#[trigger] keys[i])),
        None => false,
    }
}

/// Whether `entries` are the deploy profiles of a store text: one per member of the root
/// object, in the order of the members, named as the member, with its rows in order.
pub open spec fn deploy_file_read(text: Seq<char>, entries: Seq<(String, Vec<DeployProfile>)>) -> bool {
    let keys = root_keys(text)->Some_0;
    &&& root_keys(text) is Some
    &&& entries.len() == keys.len()
    &&& forall|i: int|
        0 <= i < entries.len() ==> {
            &&& (#[trigger] entries[i]).0@ == keys[i]
            &&& rows_read(text, member_pointer(keys[i]), entries[i].1@)
        }
}

/// Reads the deploy-profile store from its JSON text: one entry per member of the root
/// object, in the order the parser gives them, each with its rows in order.
pub fn get_deploy_configs(text: &str) -> (r: Result<Vec<(String, Vec<DeployProfile>)>, ResolveError>)
    ensures
        r is Ok <==> deploy_file_valid(text@),
        r matches Err(e) ==> e == ResolveError::DeployFileInvalid,
        r matches Ok(v) ==> deploy_file_read(text@, v@),
{
    proof {
        reveal_strlit("");
        assert(""@ =~= Seq::<char>::empty());
    }
    let keys = match node_at(text, "") {
        JsonNode::Object(keys) => keys,
        _ => {
            return Err(ResolveError::DeployFileInvalid);
        },
    };
    let ghost kv = keys@.map_values(|k: String| k@);
    let mut out: Vec<(String, Vec<DeployProfile>)> = Vec::new();
    let mut i: usize = 0;
    while i < keys.len()
        invariant
            root_keys(text@) == Some(kv),
            kv == keys@.map_values(|k: String| k@),
            i <= keys.len(),
            out.len() == i,
            forall|j: int|
                0 <= j < i ==> {
                    &&& (#[trigger] out@[j]).0@ == kv[j]
                    &&& rows_read(text@, member_pointer(kv[j]), out@[j].1@)
                },
            forall|j: int| 0 <= j < i ==> rows_readable(text@, member_pointer(#[trigger] kv[j])),
        decreases keys.len() - i,
    {
        let mut p = String::new();
        push_token(&mut p, keys[i].as_str());
        proof {
            assert(p@ =~= member_pointer(kv[i as int]));
        }
        match read_rows(text, &p) {
            Some(rows) => {
                out.push((keys[i].clone(), rows));
            },
            None => {
                proof {
                    if deploy_file_valid(text@) {
                        let ks = root_keys(text@)->Some_0;
                        assert(ks == kv);
                        assert(rows_readable(text@, member_pointer(ks[i as int])));
                    }
                }
                return Err(ResolveError::DeployFileInvalid);
            },
        }
        i = i + 1;
    }
    Ok(out)
}

} // verus!
