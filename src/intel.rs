use vstd::prelude::*;

verus! {

/// One contact of a company: who they are and where to reach them.
pub struct Person {
    pub name: String,
    pub title: String,
    pub linkedin: String,
}

/// A `Person` as plain character sequences.
pub struct PersonModel {
    pub name: Seq<char>,
    pub title: Seq<char>,
    pub linkedin: Seq<char>,
}

impl View for Person {
    type V = PersonModel;

    open spec fn view(&self) -> PersonModel {
        PersonModel { name: self.name@, title: self.title@, linkedin: self.linkedin@ }
    }
}

/// Body of `POST /intel/lookup_company`: the company's domain and, optionally,
/// the family of roles the caller is interested in.
pub struct LookupReq {
    pub domain: String,
    pub role_family: Option<String>,
}

pub struct LookupReqModel {
    pub domain: Seq<char>,
    pub role_family: Option<Seq<char>>,
}

impl View for LookupReq {
    type V = LookupReqModel;

    open spec fn view(&self) -> LookupReqModel {
        LookupReqModel {
            domain: self.domain@,
            role_family: match self.role_family {
                Some(s) => Some(s@),
                None => None,
            },
        }
    }
}

/// The company-intelligence record answered for a lookup.
pub struct LookupResp {
    pub domain: String,
    pub role_family: String,
    pub products: Vec<String>,
    pub people: Vec<Person>,
    pub signals: Vec<String>,
    pub sources: Vec<String>,
}

pub struct LookupRespModel {
    pub domain: Seq<char>,
    pub role_family: Seq<char>,
    pub products: Seq<Seq<char>>,
    pub people: Seq<PersonModel>,
    pub signals: Seq<Seq<char>>,
    pub sources: Seq<Seq<char>>,
}

/// The views of a vector of strings.
pub open spec fn strings_view(v: Seq<String>) -> Seq<Seq<char>> {
    v.map_values(|s: String| s@)
}

impl View for LookupResp {
    type V = LookupRespModel;

    open spec fn view(&self) -> LookupRespModel {
        LookupRespModel {
            domain: self.domain@,
            role_family: self.role_family@,
            products: strings_view(self.products@),
            people: self.people@.map_values(|p: Person| p@),
            signals: strings_view(self.signals@),
            sources: strings_view(self.sources@),
        }
    }
}

/// The liveness token of the lookup service.
pub open spec fn health_token() -> Seq<char> {
    "ok"@
}

/// The role family used when a request names none.
pub open spec fn default_role_family() -> Seq<char> {
    "General"@
}

/// The role family a response carries: the requested one, else the default.
pub open spec fn resolved_role_family(requested: Option<Seq<char>>) -> Seq<char> {
    match requested {
        Some(r) => r,
        None => default_role_family(),
    }
}

pub open spec fn stub_products() -> Seq<Seq<char>> {
    seq!["ExampleProduct"@]
}

pub open spec fn stub_people() -> Seq<PersonModel> {
    seq![
        PersonModel {
            name: "Jane Doe"@,
            title: "Hiring Manager"@,
            linkedin: "https://linkedin.com/in/janedoe"@,
        },
    ]
}

pub open spec fn stub_signals() -> Seq<Seq<char>> {
    seq!["Recent funding"@, "Hiring push"@]
}

pub open spec fn stub_sources() -> Seq<Seq<char>> {
    seq!["https://example.com"@]
}

/// The record answered for a request: the domain echoed unchanged, the
/// resolved role family, and the fixed products, people, signals and sources.
pub open spec fn lookup_response(req: LookupReqModel) -> LookupRespModel {
    LookupRespModel {
        domain: req.domain,
        role_family: resolved_role_family(req.role_family),
        products: stub_products(),
        people: stub_people(),
        signals: stub_signals(),
        sources: stub_sources(),
    }
}

/// Handler of `GET /healthz`. It reads no state, so the answer is the same
/// whatever requests came before.
pub fn health() -> (r: &'static str)
    ensures
        r@ == health_token(),
{
    "ok"
}

/// Handler of `POST /intel/lookup_company`. Every request succeeds.
pub fn lookup_company(req: LookupReq) -> (r: LookupResp)
    ensures
        r@ == lookup_response(req@),
        r.domain@ == req.domain@,
        req.role_family matches Some(s) ==> r.role_family@ == s@,
        req.role_family is None ==> r.role_family@ == default_role_family(),
{
    let role = match req.role_family {
        Some(r) => r,
        None => "General".to_owned(),
    };
    let mut products: Vec<String> = Vec::new();
    products.push("ExampleProduct".to_owned());
    let mut people: Vec<Person> = Vec::new();
    people.push(
        Person {
            name: "Jane Doe".to_owned(),
            title: "Hiring Manager".to_owned(),
            linkedin: "https://linkedin.com/in/janedoe".to_owned(),
        },
    );
    let mut signals: Vec<String> = Vec::new();
    signals.push("Recent funding".to_owned());
    signals.push("Hiring push".to_owned());
    let mut sources: Vec<String> = Vec::new();
    sources.push("https://example.com".to_owned());
    let r = LookupResp {
        domain: req.domain,
        role_family: role,
        products,
        people,
        signals,
        sources,
    };
    assert(r@.products =~= stub_products());
    assert(r@.people =~= stub_people());
    assert(r@.signals =~= stub_signals());
    assert(r@.sources =~= stub_sources());
    r
}

/// Whatever the request, the products, people, signals and sources of the
/// answer are the same.
pub proof fn lemma_stub_fields_constant(a: LookupReqModel, b: LookupReqModel)
    ensures
        lookup_response(a).products == lookup_response(b).products,
        lookup_response(a).people == lookup_response(b).people,
        lookup_response(a).signals == lookup_response(b).signals,
        lookup_response(a).sources == lookup_response(b).sources,
{
}

} // verus!
