//! The application record, its role, and the variant slots that carry its
//! optional fields on the wire.

use crate::rdn::{rdn_check, ApplicationRDN, ApplicationRDNErrors};
use url::Url;
use uuid::Uuid;
use vstd::prelude::*;
use vstd::string::*;

verus! {

/// `uuid::Uuid`, carried as an opaque value.
#[verifier::external_type_specification]
#[verifier::external_body]
pub struct ExUuid(uuid::Uuid);

/// `url::Url`, carried as an opaque value.
#[verifier::external_type_specification]
#[verifier::external_body]
pub struct ExUrl(url::Url);

/// The text that `Uuid`'s `Display` writes for `id`.
pub uninterp spec fn uuid_text(id: Uuid) -> Seq<char>;

/// `uuid::Error`, carried as an opaque value.
#[verifier::external_type_specification]
#[verifier::external_body]
pub struct ExUuidError(uuid::Error);

/// What `Uuid::parse_str` makes of `s`.
pub uninterp spec fn uuid_parse(s: Seq<char>) -> Result<Uuid, uuid::Error>;

/// The text that `Url`'s `Display` writes for `url`.
pub uninterp spec fn url_text(url: Url) -> Seq<char>;

/// `url::ParseError`, carried as an opaque value.
#[verifier::external_type_specification]
#[verifier::external_body]
pub struct ExParseError(url::ParseError);

/// What `Url::parse` makes of `s`.
pub uninterp spec fn url_parse(s: Seq<char>) -> Result<Url, url::ParseError>;

/// Calls `Url::parse`, which reads `s` as an absolute URL. Trusted: the result
/// is the named one.
#[verifier::external_body]
pub(crate) fn parse_url(s: &str) -> (r: Result<Url, url::ParseError>)
    ensures
        r == url_parse(s@),
{
    Url::parse(s)
}

/// Formats `id` through `Uuid`'s `Display`, which writes the hyphenated
/// lower-case form. Trusted: the result is the named text, and
/// `Uuid::parse_str` reads that form back as `id`.
#[verifier::external_body]
pub(crate) fn uuid_to_text(id: &Uuid) -> (s: String)
    ensures
        s@ == uuid_text(*id),
        uuid_parse(s@) is Ok && uuid_parse(s@)->Ok_0 == *id,
{
    id.to_string()
}

/// Calls `Uuid::parse_str`. Trusted: the result is the named one.
#[verifier::external_body]
fn parse_uuid(s: &str) -> (r: Result<Uuid, uuid::Error>)
    ensures
        r == uuid_parse(s@),
{
    Uuid::parse_str(s)
}

/// Formats `url` through `Url`'s `Display`, its serialization. Trusted: the
/// result is the named text.
#[verifier::external_body]
fn url_to_text(url: &Url) -> (s: String)
    ensures
        s@ == url_text(*url),
{
    url.to_string()
}

/// `Url`'s derived `Clone`: the copy is the same URL.
pub assume_specification[ <Url as Clone>::clone ](url: &Url) -> (copy: Url)
    ensures
        copy == *url,
;

/// The byte that stands for "no value" in a variant slot.
pub const SENTINEL: u8 = 0;

/// The absent value, as it is carried on the wire.
#[derive(Debug, Clone, Copy, PartialEq, Eq, Structural)]
pub struct Empty {}

impl Empty {
    /// The byte that carries it.
    pub fn byte(&self) -> (b: u8)
        ensures
            b == SENTINEL,
    {
        SENTINEL
    }
}

/// What can be wrong with an application.
#[derive(Debug, Clone, Copy, PartialEq, Eq, Structural)]
pub enum ApplicationErrors {
    InvalidRDN(ApplicationRDNErrors),
}

impl ApplicationErrors {
    /// The error in words.
    pub fn message(&self) -> (text: String)
        ensures
            text@ == "Invalid RDN provided for application"@,
    {
        String::from_str("Invalid RDN provided for application")
    }

    /// The rule of the name grammar that was broken.
    pub fn cause(&self) -> (e: ApplicationRDNErrors)
        ensures
            *self == ApplicationErrors::InvalidRDN(e),
    {
        match self {
            ApplicationErrors::InvalidRDN(e) => *e,
        }
    }
}

/// The role of an application. `Other` keeps any tag that is not a known one.
#[derive(Debug, Eq)]
pub enum ApplicationsType {
    Client,
    Server,
    Other(String),
}

/// `ApplicationsType` as a mathematical value.
pub enum RoleModel {
    Client,
    Server,
    Other(Seq<char>),
}

impl View for ApplicationsType {
    type V = RoleModel;

    open spec fn view(&self) -> RoleModel {
        match self {
            ApplicationsType::Client => RoleModel::Client,
            ApplicationsType::Server => RoleModel::Server,
            ApplicationsType::Other(name) => RoleModel::Other(name@),
        }
    }
}

/// The tag that carries `role`.
pub open spec fn role_tag(role: RoleModel) -> Seq<char> {
    match role {
        RoleModel::Client => "Client"@,
        RoleModel::Server => "Server"@,
        RoleModel::Other(name) => name,
    }
}

/// The role that `tag` stands for: any tag but the two known ones is kept.
pub open spec fn role_of_tag(tag: Seq<char>) -> RoleModel {
    if tag == "Client"@ {
        RoleModel::Client
    } else if tag == "Server"@ {
        RoleModel::Server
    } else {
        RoleModel::Other(tag)
    }
}

/// A role whose tag reads back as itself: every role but an `Other` that
/// holds one of the two known tags.
pub open spec fn role_is_canonical(role: RoleModel) -> bool {
    match role {
        RoleModel::Other(name) => name != "Client"@ && name != "Server"@,
        _ => true,
    }
}

impl PartialEq for ApplicationsType {
    fn eq(&self, other: &Self) -> (same: bool) {
        match (self, other) {
            (ApplicationsType::Client, ApplicationsType::Client) => true,
            (ApplicationsType::Server, ApplicationsType::Server) => true,
            (ApplicationsType::Other(a), ApplicationsType::Other(b)) => *a == *b,
            _ => false,
        }
    }
}

/// Two roles are equal where they are the same known role, or hold the same
/// text.
impl vstd::std_specs::cmp::PartialEqSpecImpl for ApplicationsType {
    open spec fn obeys_eq_spec() -> bool {
        true
    }

    open spec fn eq_spec(&self, other: &Self) -> bool {
        self@ == other@
    }
}

impl Clone for ApplicationsType {
    fn clone(&self) -> (copy: Self)
        ensures
            copy@ == self@,
    {
        match self {
            ApplicationsType::Client => ApplicationsType::Client,
            ApplicationsType::Server => ApplicationsType::Server,
            ApplicationsType::Other(name) => ApplicationsType::Other(name.clone()),
        }
    }
}

impl ApplicationsType {
    /// The tag that carries this role.
    pub fn tag(&self) -> (tag: String)
        ensures
            tag@ == role_tag(self@),
    {
        match self {
            ApplicationsType::Client => String::from_str("Client"),
            ApplicationsType::Server => String::from_str("Server"),
            ApplicationsType::Other(name) => name.clone(),
        }
    }

    /// The role that `tag` stands for.
    pub fn from_tag(tag: String) -> (role: ApplicationsType)
        ensures
            role@ == role_of_tag(tag@),
    {
        if tag == String::from_str("Client") {
            ApplicationsType::Client
        } else if tag == String::from_str("Server") {
            ApplicationsType::Server
        } else {
            ApplicationsType::Other(tag)
        }
    }
}

/// Every tag survives being read as a role and written again.
pub proof fn lemma_tag_round_trip(tag: Seq<char>)
    ensures
        role_tag(role_of_tag(tag)) == tag,
{
}

/// Every canonical role survives being written as a tag and read again; so
/// does the text of an `Other` that is not a known tag.
pub proof fn lemma_role_round_trip(role: RoleModel)
    requires
        role_is_canonical(role),
    ensures
        role_of_tag(role_tag(role)) == role,
{
    reveal_strlit("Client");
    reveal_strlit("Server");
    assert("Client"@.len() == 6);
    assert("Server"@[0] == 'S');
    assert("Client"@[0] == 'C');
}

/// A variant slot: a text, or a byte where there is no value.
#[derive(Debug, Clone, PartialEq, Eq)]
pub enum WireVariant {
    Text(String),
    Byte(u8),
}

/// `WireVariant` as a mathematical value.
pub enum VariantModel {
    Text(Seq<char>),
    Byte(u8),
}

impl View for WireVariant {
    type V = VariantModel;

    open spec fn view(&self) -> VariantModel {
        match self {
            WireVariant::Text(text) => VariantModel::Text(text@),
            WireVariant::Byte(b) => VariantModel::Byte(*b),
        }
    }
}

/// The slot that carries an optional text.
pub open spec fn variant_of(text: Option<Seq<char>>) -> VariantModel {
    match text {
        Some(t) => VariantModel::Text(t),
        None => VariantModel::Byte(SENTINEL),
    }
}

/// The optional text that a slot carries: a byte, whichever, is no value.
pub open spec fn text_of(slot: VariantModel) -> Option<Seq<char>> {
    match slot {
        VariantModel::Text(t) => Some(t),
        VariantModel::Byte(_) => None,
    }
}

impl WireVariant {
    /// The slot for a text that is there.
    pub fn present(text: String) -> (slot: WireVariant)
        ensures
            slot@ == variant_of(Some(text@)),
    {
        WireVariant::Text(text)
    }

    /// The slot for a value that is not there: the sentinel byte.
    pub fn absent() -> (slot: WireVariant)
        ensures
            slot@ == variant_of(None),
    {
        WireVariant::Byte(Empty {  }.byte())
    }

    /// The text in the slot, if it holds one.
    pub fn text(&self) -> (text: Option<&String>)
        ensures
            match text {
                Some(t) => text_of(self@) == Some(t@),
                None => text_of(self@) is None,
            },
    {
        match self {
            WireVariant::Text(t) => Some(t),
            WireVariant::Byte(_) => None,
        }
    }
}

/// An optional text survives its slot: what is absent comes back absent, and
/// what is present comes back as it was, the empty text too.
pub proof fn lemma_variant_round_trip(text: Option<Seq<char>>)
    ensures
        text_of(variant_of(text)) == text,
{
}

/// An application: its name, its instance, and what it says of itself.
#[derive(Debug)]
pub struct Application {
    rdn: ApplicationRDN,
    id: Uuid,
    homepage: Option<Url>,
    description: Option<String>,
    app_type: Option<ApplicationsType>,
}

/// `Application` as a mathematical value.
pub struct ApplicationModel {
    pub rdn: Seq<char>,
    pub id: Uuid,
    pub homepage: Option<Url>,
    pub description: Option<Seq<char>>,
    pub app_type: Option<RoleModel>,
}

/// The text of an optional string.
pub open spec fn opt_text(s: Option<String>) -> Option<Seq<char>> {
    match s {
        Some(t) => Some(t@),
        None => None,
    }
}

/// The value of an optional role.
pub open spec fn opt_role(r: Option<ApplicationsType>) -> Option<RoleModel> {
    match r {
        Some(t) => Some(t@),
        None => None,
    }
}

impl View for Application {
    type V = ApplicationModel;

    closed spec fn view(&self) -> ApplicationModel {
        ApplicationModel {
            rdn: self.rdn@,
            id: self.id,
            homepage: self.homepage,
            description: opt_text(self.description),
            app_type: opt_role(self.app_type),
        }
    }
}

/// An application as one unit on the wire: the name, the instance id as
/// text, and a slot each for homepage, description and role.
#[derive(Debug, Clone, PartialEq, Eq)]
pub struct WireApplication {
    pub rdn: String,
    pub id: String,
    pub homepage: WireVariant,
    pub description: WireVariant,
    pub app_type: WireVariant,
}

/// `WireApplication` as a mathematical value.
pub struct WireModel {
    pub rdn: Seq<char>,
    pub id: Seq<char>,
    pub homepage: VariantModel,
    pub description: VariantModel,
    pub app_type: VariantModel,
}

impl View for WireApplication {
    type V = WireModel;

    open spec fn view(&self) -> WireModel {
        WireModel {
            rdn: self.rdn@,
            id: self.id@,
            homepage: self.homepage@,
            description: self.description@,
            app_type: self.app_type@,
        }
    }
}

/// Whether the homepage, if there is one, is written as a text that reads
/// back as the same URL.
pub open spec fn homepage_reads_back(homepage: Option<Url>) -> bool {
    match homepage {
        Some(u) => url_parse(url_text(u)) == Ok::<Url, url::ParseError>(u),
        None => true,
    }
}

/// Whether the role, if there is one, is canonical.
pub open spec fn role_reads_back(role: Option<RoleModel>) -> bool {
    match role {
        Some(r) => role_is_canonical(r),
        None => true,
    }
}

/// How an application goes onto the wire.
pub open spec fn encode(app: ApplicationModel) -> WireModel {
    WireModel {
        rdn: app.rdn,
        id: uuid_text(app.id),
        homepage: variant_of(
            match app.homepage {
                Some(u) => Some(url_text(u)),
                None => None,
            },
        ),
        description: variant_of(app.description),
        app_type: variant_of(
            match app.app_type {
                Some(r) => Some(role_tag(r)),
                None => None,
            },
        ),
    }
}

/// The homepage that a slot carries: `None` where its text is no URL.
pub open spec fn decode_homepage(slot: VariantModel) -> Option<Option<Url>> {
    match text_of(slot) {
        None => Some(None),
        Some(t) => match url_parse(t) {
            Ok(u) => Some(Some(u)),
            Err(_) => None,
        },
    }
}

/// How an application is read off the wire: `None` where the name is not
/// valid, the instance id is no UUID, or the homepage is no URL.
pub open spec fn decode(wire: WireModel) -> Option<ApplicationModel> {
    if rdn_check(wire.rdn) is Some || uuid_parse(wire.id) is Err || decode_homepage(
        wire.homepage,
    ) is None {
        None
    } else {
        Some(
            ApplicationModel {
                rdn: wire.rdn,
                id: uuid_parse(wire.id)->Ok_0,
                homepage: decode_homepage(wire.homepage)->Some_0,
                description: text_of(wire.description),
                app_type: match text_of(wire.app_type) {
                    Some(t) => Some(role_of_tag(t)),
                    None => None,
                },
            },
        )
    }
}

impl Clone for Application {
    fn clone(&self) -> (copy: Self)
        ensures
            copy@ == self@,
    {
        let homepage = match &self.homepage {
            Some(u) => Some(u.clone()),
            None => None,
        };
        let description = match &self.description {
            Some(d) => Some(d.clone()),
            None => None,
        };
        let app_type = match &self.app_type {
            Some(r) => Some(r.clone()),
            None => None,
        };
        Application { rdn: self.rdn.clone(), id: self.id, homepage, description, app_type }
    }
}

impl Application {
    /// An application of these fields, each kept as given.
    pub fn new(
        rdn: ApplicationRDN,
        id: Uuid,
        homepage: Option<Url>,
        description: Option<String>,
        app_type: Option<ApplicationsType>,
    ) -> (app: Application)
        ensures
            app@ == (ApplicationModel {
                rdn: rdn@,
                id,
                homepage,
                description: opt_text(description),
                app_type: opt_role(app_type),
            }),
    {
        Application { rdn, id, homepage, description, app_type }
    }

    /// The name of the application.
    pub fn rdn(&self) -> (rdn: &ApplicationRDN)
        ensures
            rdn@ == self@.rdn,
    {
        &self.rdn
    }

    /// The instance of the application.
    pub fn id(&self) -> (id: Uuid)
        ensures
            id == self@.id,
    {
        self.id
    }

    /// The homepage, if one is given.
    pub fn homepage(&self) -> (homepage: Option<&Url>)
        ensures
            match homepage {
                Some(u) => self@.homepage == Some(*u),
                None => self@.homepage is None,
            },
    {
        self.homepage.as_ref()
    }

    /// The description, if one is given.
    pub fn description(&self) -> (description: Option<&String>)
        ensures
            match description {
                Some(d) => self@.description == Some(d@),
                None => self@.description is None,
            },
    {
        self.description.as_ref()
    }

    /// The role, if one is given.
    pub fn app_type(&self) -> (app_type: Option<&ApplicationsType>)
        ensures
            match app_type {
                Some(r) => self@.app_type == Some(r@),
                None => self@.app_type is None,
            },
    {
        self.app_type.as_ref()
    }

    /// The application as it goes onto the wire. Reading the result back
    /// gives the application again, what is absent staying absent, where its
    /// role is canonical and its homepage reads back; an application with
    /// neither is such a one.
    pub fn to_wire(&self) -> (wire: WireApplication)
        ensures
            wire@ == encode(self@),
            homepage_reads_back(self@.homepage) && role_reads_back(self@.app_type) ==> decode(
                wire@,
            ) == Some(self@),
    {
        let rdn = String::from_str(self.rdn.name());
        let id = uuid_to_text(&self.id);
        let homepage = match &self.homepage {
            Some(u) => WireVariant::present(url_to_text(u)),
            None => WireVariant::absent(),
        };
        let description = match &self.description {
            Some(d) => WireVariant::present(d.clone()),
            None => WireVariant::absent(),
        };
        let app_type = match &self.app_type {
            Some(r) => WireVariant::present(r.tag()),
            None => WireVariant::absent(),
        };
        proof {
            if self@.app_type is Some && role_is_canonical(self@.app_type->Some_0) {
                lemma_role_round_trip(self@.app_type->Some_0);
            }
        }
        let wire = WireApplication { rdn, id, homepage, description, app_type };
        proof {
            if homepage_reads_back(self@.homepage) && role_reads_back(self@.app_type) {
                assert(decode(wire@)->Some_0.homepage == self@.homepage);
                assert(decode(wire@)->Some_0.description == self@.description);
                assert(decode(wire@)->Some_0.app_type == self@.app_type);
            }
        }
        wire
    }

    /// The application that `wire` carries, if it carries one.
    pub fn from_wire(wire: &WireApplication) -> (app: Option<Application>)
        ensures
            match decode(wire@) {
                Some(m) => app is Some && app->Some_0@ == m,
                None => app is None,
            },
    {
        let rdn = match ApplicationRDN::new(wire.rdn.as_str()) {
            Ok(rdn) => rdn,
            Err(_) => { return None; },
        };
        let id = match parse_uuid(wire.id.as_str()) {
            Ok(id) => id,
            Err(_) => { return None; },
        };
        let homepage = match wire.homepage.text() {
            Some(t) => match parse_url(t.as_str()) {
                Ok(u) => Some(u),
                Err(_) => { return None; },
            },
            None => None,
        };
        let description = match wire.description.text() {
            Some(t) => Some(t.clone()),
            None => None,
        };
        let app_type = match wire.app_type.text() {
            Some(t) => Some(ApplicationsType::from_tag(t.clone())),
            None => None,
        };
        Some(Application::new(rdn, id, homepage, description, app_type))
    }
}

} // verus!
