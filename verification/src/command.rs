//! What the outside programs are asked to do: the arguments of a search, and
//! how an attachment gets into a file that a viewer can open.

use vstd::prelude::*;
use crate::message::{texts, Attachment, AttachmentModel};
use crate::text::{decimal, decimal_string};

verus! {

/// The arguments with which the index is asked for the threads of `query`,
/// as JSON and with the HTML parts included.
pub open spec fn search_arguments(query: Seq<char>) -> Seq<Seq<char>> {
    seq!["show"@, "--format=json"@, "--include-html"@, query]
}

/// The arguments with which the index is asked for the raw content of part
/// `part` of the message `id`.
pub open spec fn fetch_arguments(id: Seq<char>, part: nat) -> Seq<Seq<char>> {
    seq!["show"@, "--format=raw"@, "--part="@ + decimal(part), "id:"@ + id]
}

/// Model of [`AttachmentPlan`].
pub enum PlanModel {
    Fetch { arguments: Seq<Seq<char>>, file_name: Seq<char> },
    Write { file_name: Seq<char>, content: Seq<char> },
}

/// How an attachment gets into a file of the temporary directory.
#[derive(Debug, PartialEq, Eq)]
pub enum AttachmentPlan {
    /// The index is run with `arguments`; what it prints goes to `file_name`.
    Fetch { arguments: Vec<String>, file_name: String },
    /// `content` goes to `file_name`.
    Write { file_name: String, content: String },
}

impl View for AttachmentPlan {
    type V = PlanModel;

    open spec fn view(&self) -> PlanModel {
        match self {
            AttachmentPlan::Fetch { arguments, file_name } => PlanModel::Fetch {
                arguments: texts(*arguments),
                file_name: file_name@,
            },
            AttachmentPlan::Write { file_name, content } => PlanModel::Write {
                file_name: file_name@,
                content: content@,
            },
        }
    }
}

/// The plan for an attachment of the message `id`: a file is fetched from the
/// index by its part number and stored under its own name; the HTML of the
/// message is stored as it is, under the name of the message with `.html`.
pub open spec fn plan_of(id: Seq<char>, attachment: AttachmentModel) -> PlanModel {
    match attachment {
        AttachmentModel::File(part, name, _) => PlanModel::Fetch {
            arguments: fetch_arguments(id, part),
            file_name: name,
        },
        AttachmentModel::Html(html) => PlanModel::Write {
            file_name: id + ".html"@,
            content: html,
        },
    }
}

/// The arguments of the search for `query`.
pub fn search_command(query: &str) -> (arguments: Vec<String>)
    ensures
        texts(arguments) == search_arguments(query@),
{
    let mut arguments: Vec<String> = Vec::new();
    arguments.push(String::from_str("show"));
    arguments.push(String::from_str("--format=json"));
    arguments.push(String::from_str("--include-html"));
    arguments.push(String::from_str(query));
    arguments
}

/// Plans how `attachment` of the message `id` gets into a file.
pub fn plan_attachment(id: &str, attachment: &Attachment) -> (plan: AttachmentPlan)
    ensures
        plan@ == plan_of(id@, attachment@),
{
    match attachment {
        Attachment::File(part, name, _) => {
            let mut part_argument = String::from_str("--part=");
            part_argument.append(decimal_string(*part).as_str());
            let mut id_argument = String::from_str("id:");
            id_argument.append(id);
            let mut arguments: Vec<String> = Vec::new();
            arguments.push(String::from_str("show"));
            arguments.push(String::from_str("--format=raw"));
            arguments.push(part_argument);
            arguments.push(id_argument);
            assert(texts(arguments) == fetch_arguments(id@, *part as nat));
            AttachmentPlan::Fetch { arguments, file_name: name.clone() }
        },
        Attachment::Html(html) => {
            let mut file_name = String::from_str(id);
            file_name.append(".html");
            AttachmentPlan::Write { file_name, content: html.clone() }
        },
    }
}

} // verus!
