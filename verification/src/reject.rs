use vstd::prelude::*;

verus! {

/// The five terminal outcomes that end a request without sanitized bytes.
/// The first four are caller-input faults; `ProcessingFailed` is an internal
/// encoder fault, the only kind reported with a server-error status.
#[derive(Clone, Copy, Debug, PartialEq, Eq, Structural)]
pub enum RejectKind {
    MissingFile,
    PayloadTooLarge,
    InvalidImage,
    ImageTooLarge,
    ProcessingFailed,
}

/// Status code owed for each rejection: caller faults are 400, the internal
/// encoder fault is 500.
pub open spec fn spec_status(k: RejectKind) -> u16 {
    match k {
        RejectKind::ProcessingFailed => 500,
        _ => 400,
    }
}

pub fn status_code(k: RejectKind) -> (s: u16)
    ensures
        s == spec_status(k),
{
    match k {
        RejectKind::ProcessingFailed => 500,
        _ => 400,
    }
}

/// The fixed JSON body returned for each rejection. The caller sees only
/// these fixed messages, never the underlying codec error detail.
pub open spec fn spec_reject_body(k: RejectKind) -> Seq<char> {
    match k {
        RejectKind::MissingFile => "{\"success\": false, \"message\": \"Arquivo ausente\"}"@,
        RejectKind::PayloadTooLarge => "{\"success\": false, \"message\": \"Arquivo muito grande\"}"@,
        RejectKind::InvalidImage => "{\"success\": false, \"message\": \"Imagem inválida\"}"@,
        RejectKind::ImageTooLarge => "{\"success\": false, \"message\": \"Imagem muito grande\"}"@,
        RejectKind::ProcessingFailed => "{\"success\": false, \"message\": \"Falha no processamento\"}"@,
    }
}

pub fn reject_body(k: RejectKind) -> (b: String)
    ensures
        b@ == spec_reject_body(k),
{
    match k {
        RejectKind::MissingFile => "{\"success\": false, \"message\": \"Arquivo ausente\"}".to_owned(),
        RejectKind::PayloadTooLarge => "{\"success\": false, \"message\": \"Arquivo muito grande\"}".to_owned(),
        RejectKind::InvalidImage => "{\"success\": false, \"message\": \"Imagem inválida\"}".to_owned(),
        RejectKind::ImageTooLarge => "{\"success\": false, \"message\": \"Imagem muito grande\"}".to_owned(),
        RejectKind::ProcessingFailed => "{\"success\": false, \"message\": \"Falha no processamento\"}".to_owned(),
    }
}

} // verus!
