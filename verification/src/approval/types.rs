//! Approval system types: permission requests, question requests, and queue
//! entries, with their models.
use crate::json::Json;
use crate::json::JsonV;
use vstd::prelude::*;

verus! {

/// A pending permission request from OpenCode.
#[derive(Debug, PartialEq)]
pub struct PermissionRequest {
    pub id: String,
    pub permission: String,
    pub metadata: Json,
}

pub struct PermissionRequestV {
    pub id: Seq<char>,
    pub permission: Seq<char>,
    pub metadata: JsonV,
}

impl View for PermissionRequest {
    type V = PermissionRequestV;

    open spec fn view(&self) -> PermissionRequestV {
        PermissionRequestV { id: self.id@, permission: self.permission@, metadata: self.metadata@ }
    }
}

/// How to reply to a permission request.
#[derive(Clone, Copy, Debug, PartialEq, Eq, Structural)]
pub enum PermissionReply {
    Once,
    Always,
    Reject,
}

/// The name of a reply on the wire (lower case).
pub open spec fn reply_wire_name(r: PermissionReply) -> Seq<char> {
    match r {
        PermissionReply::Once => "once"@,
        PermissionReply::Always => "always"@,
        PermissionReply::Reject => "reject"@,
    }
}

impl PermissionReply {
    /// The name by which the reply is sent to OpenCode.
    pub fn wire_name(&self) -> (s: &'static str)
        ensures
            s@ == reply_wire_name(*self),
    {
        match self {
            PermissionReply::Once => "once",
            PermissionReply::Always => "always",
            PermissionReply::Reject => "reject",
        }
    }
}

/// A single option within a question.
#[derive(Clone, Debug, PartialEq)]
pub struct QuestionOption {
    pub label: String,
}

impl View for QuestionOption {
    type V = Seq<char>;

    open spec fn view(&self) -> Seq<char> {
        self.label@
    }
}

/// A single question within a QuestionRequest.
#[derive(Clone, Debug, PartialEq)]
pub struct QuestionInfo {
    pub question: String,
    pub options: Vec<QuestionOption>,
    pub custom: bool,
}

pub struct QuestionInfoV {
    pub question: Seq<char>,
    /// The option labels, in order.
    pub options: Seq<Seq<char>>,
    pub custom: bool,
}

impl View for QuestionInfo {
    type V = QuestionInfoV;

    open spec fn view(&self) -> QuestionInfoV {
        QuestionInfoV {
            question: self.question@,
            options: self.options@.map_values(|o: QuestionOption| o@),
            custom: self.custom,
        }
    }
}

/// The value a missing `custom` flag takes: custom answers are allowed.
pub fn default_true() -> (b: bool)
    ensures
        b,
{
    true
}

/// A pending question request from OpenCode.
#[derive(Clone, Debug, PartialEq)]
pub struct QuestionRequest {
    pub id: String,
    pub questions: Vec<QuestionInfo>,
}

pub struct QuestionRequestV {
    pub id: Seq<char>,
    pub questions: Seq<QuestionInfoV>,
}

impl View for QuestionRequest {
    type V = QuestionRequestV;

    open spec fn view(&self) -> QuestionRequestV {
        QuestionRequestV {
            id: self.id@,
            questions: self.questions@.map_values(|q: QuestionInfo| q@),
        }
    }
}

/// A pending approval item — either a permission or a question.
#[derive(Debug, PartialEq)]
pub enum PendingApproval {
    Permission(PermissionRequest),
    Question(QuestionRequest),
}

pub enum PendingApprovalV {
    Permission(PermissionRequestV),
    Question(QuestionRequestV),
}

impl View for PendingApproval {
    type V = PendingApprovalV;

    open spec fn view(&self) -> PendingApprovalV {
        match self {
            PendingApproval::Permission(r) => PendingApprovalV::Permission(r@),
            PendingApproval::Question(r) => PendingApprovalV::Question(r@),
        }
    }
}

/// The request ID of an approval item.
pub open spec fn approval_id(a: PendingApprovalV) -> Seq<char> {
    match a {
        PendingApprovalV::Permission(r) => r.id,
        PendingApprovalV::Question(r) => r.id,
    }
}

impl PendingApproval {
    /// Returns the request ID for this approval item.
    pub fn id(&self) -> (s: &str)
        ensures
            s@ == approval_id(self@),
    {
        match self {
            PendingApproval::Permission(r) => r.id.as_str(),
            PendingApproval::Question(r) => r.id.as_str(),
        }
    }
}

} // verus!
