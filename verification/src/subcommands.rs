//! What the two subcommands make of the outcome of their work: the listing
//! and the deletion report, or the failure as the operator is told it.

use crate::aws::{
    lang_string, platform_string, to_lang_string, to_platform_string, Error, ErrorModel,
};
use crate::driverimage::DriverImage;
use crate::{ImageLang, ImagePlatform};
use vstd::prelude::*;
use vstd::string::StringExecFns;

verus! {

/// The selection of the `list` subcommand: a language and a platform, each
/// of which may be left out.
#[derive(Clone, Copy, Debug, PartialEq, Eq)]
pub struct ListArgs {
    pub lang: Option<ImageLang>,
    pub platform: Option<ImagePlatform>,
}

/// The message of a failed retrieval for a selection, with the cause at its
/// end.
pub open spec fn retrieval_failure(
    lang: Option<ImageLang>,
    platform: Option<ImagePlatform>,
    cause: Seq<char>,
) -> Seq<char> {
    "Error retrieving driver images for lang "@ + lang_string(lang) + " and platform "@
        + platform_string(platform) + ": "@ + cause
}

/// A failure as the `list` subcommand reports it: a failed query names the
/// selection that it was made for, any other failure is itself.
pub open spec fn list_failure(args: ListArgs, failure: ErrorModel) -> ErrorModel {
    match failure {
        ErrorModel::QueryError { message } => ErrorModel::QueryError {
            message: retrieval_failure(args.lang, args.platform, message),
        },
        other => other,
    }
}

/// The line that reports the result of a deletion.
pub open spec fn deletion_report(result: bool) -> Seq<char> {
    "Result of image deletion: "@ + (if result {
        "true"@
    } else {
        "false"@
    }) + " "@
}

/// The outcome of the `list` subcommand: the driver images to be listed, or
/// the failure as it is reported.
pub fn list_command(
    args: &ListArgs,
    outcome: Result<Vec<DriverImage>, Error>,
) -> (listing: Result<Vec<DriverImage>, Error>)
    ensures
        match outcome {
            Ok(images) => listing == Ok::<Vec<DriverImage>, Error>(images),
            Err(e) => listing matches Err(failure) && failure@ == list_failure(*args, e@),
        },
{
    match outcome {
        Ok(images) => Ok(images),
        Err(Error::QueryError { message }) => {
            let mut text = "Error retrieving driver images for lang ".to_owned();
            text.append(to_lang_string(&args.lang).as_str());
            text.append(" and platform ");
            text.append(to_platform_string(&args.platform).as_str());
            text.append(": ");
            text.append(message.as_str());
            Err(Error::QueryError { message: text })
        },
        Err(other) => Err(other),
    }
}

/// The outcome of the `delete` subcommand: the line that reports the
/// catalog's answer, or the failure.
pub fn delete_command(outcome: Result<bool, Error>) -> (report: Result<String, Error>)
    ensures
        match outcome {
            Ok(result) => report matches Ok(line) && line@ == deletion_report(result),
            Err(e) => report == Err::<String, Error>(e),
        },
{
    match outcome {
        Ok(result) => {
            let mut line = "Result of image deletion: ".to_owned();
            line.append(
                if result {
                    "true"
                } else {
                    "false"
                },
            );
            line.append(" ");
            Ok(line)
        },
        Err(e) => Err(e),
    }
}

} // verus!
