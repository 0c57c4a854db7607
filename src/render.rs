use vstd::prelude::*;

verus! {

/// serde_json's `Value`: any JSON document, carried through unread.
#[verifier::external_type_specification]
#[verifier::external_body]
pub struct ExValue(serde_json::Value);

/// Body of `POST /render/resume`: a structured description of the resume.
pub struct RenderReq {
    pub cv_json: serde_json::Value,
}

/// Answer of the render endpoint: where the rendered document is stored.
pub struct RenderResp {
    pub pdf_url: String,
}

pub struct RenderRespModel {
    pub pdf_url: Seq<char>,
}

impl View for RenderResp {
    type V = RenderRespModel;

    open spec fn view(&self) -> RenderRespModel {
        RenderRespModel { pdf_url: self.pdf_url@ }
    }
}

/// The storage locator that stands in for a rendered document.
pub open spec fn placeholder_locator() -> Seq<char> {
    "s3://bucket/fake.pdf"@
}

/// The answer to a render request: the placeholder locator, whatever the
/// payload holds.
pub open spec fn render_response(req: RenderReq) -> RenderRespModel {
    RenderRespModel { pdf_url: placeholder_locator() }
}

/// Handler of `POST /render/resume`. Every request succeeds.
pub fn render(req: RenderReq) -> (r: RenderResp)
    ensures
        r@ == render_response(req),
        r.pdf_url@ == placeholder_locator(),
{
    RenderResp { pdf_url: "s3://bucket/fake.pdf".to_owned() }
}

/// The payload of a render request has no effect on the answer.
pub proof fn lemma_render_ignores_payload(a: RenderReq, b: RenderReq)
    ensures
        render_response(a) == render_response(b),
{
}

} // verus!
