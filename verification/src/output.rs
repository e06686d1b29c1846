//! Where retrieved content is stored.

use crate::key::derived_file_name;
use crate::key::DERIVED_SUFFIX;
use crate::text::option_text;
use vstd::prelude::*;
use vstd::string::*;

verus! {

/// The place of a stored file: a file path, and the directory that a relative
/// path is taken from. With no directory the path is used as it stands, which
/// for a relative path means the working directory.
#[derive(Debug, PartialEq, Eq)]
pub struct OutputTarget {
    /// The directory to create if absent and to place the file in.
    pub directory: Option<String>,
    /// The path of the file.
    pub file: String,
}

/// The mathematical content of an [`OutputTarget`].
pub struct OutputTargetView {
    pub directory: Option<Seq<char>>,
    pub file: Seq<char>,
}

impl View for OutputTarget {
    type V = OutputTargetView;

    open spec fn view(&self) -> OutputTargetView {
        OutputTargetView { directory: option_text(self.directory), file: self.file@ }
    }
}

impl Clone for OutputTarget {
    fn clone(&self) -> (r: Self)
        ensures
            r@ == self@,
    {
        OutputTarget {
            directory: crate::text::copy_option_text(&self.directory),
            file: self.file.clone(),
        }
    }
}

/// The output policy.
///
/// 1. A path that was given explicitly is used as it is.
/// 2. Otherwise the file is named after the identifier.
/// 3. That name is placed in the share directory when sharing is enabled, and
///    in the working directory when it is not.
pub open spec fn resolved_target(
    explicit: Option<Seq<char>>,
    sharing: bool,
    identifier: Seq<char>,
    share_dir: Seq<char>,
) -> OutputTargetView {
    match explicit {
        Some(path) => OutputTargetView { directory: None, file: path },
        None => OutputTargetView {
            directory: if sharing {
                Some(share_dir)
            } else {
                None
            },
            file: derived_file_name(identifier),
        },
    }
}

/// Resolves where the content named `identifier` is stored.
pub fn resolve_output(
    explicit: &Option<String>,
    sharing: bool,
    identifier: &str,
    share_dir: &str,
) -> (target: OutputTarget)
    ensures
        target@ == resolved_target(option_text(*explicit), sharing, identifier@, share_dir@),
{
    match explicit {
        Some(path) => OutputTarget { directory: None, file: path.clone() },
        None => {
            let mut file = String::from_str(identifier);
            file.append(DERIVED_SUFFIX);
            let directory = if sharing {
                Some(String::from_str(share_dir))
            } else {
                None
            };
            OutputTarget { directory, file }
        },
    }
}

/// Resolution is a function of its four inputs: two targets resolved from the
/// same explicit path, sharing flag, identifier and share directory are the
/// same target.
pub proof fn lemma_resolution_is_a_function(
    explicit: Option<Seq<char>>,
    sharing: bool,
    identifier: Seq<char>,
    share_dir: Seq<char>,
    first: OutputTargetView,
    second: OutputTargetView,
)
    requires
        first == resolved_target(explicit, sharing, identifier, share_dir),
        second == resolved_target(explicit, sharing, identifier, share_dir),
    ensures
        first == second,
{
}

/// An explicit path decides the target alone: neither the sharing flag, nor
/// the identifier, nor the share directory has any influence on it.
pub proof fn lemma_explicit_path_wins(
    path: Seq<char>,
    sharing: bool,
    identifier: Seq<char>,
    share_dir: Seq<char>,
)
    ensures
        resolved_target(Some(path), sharing, identifier, share_dir) == (OutputTargetView {
            directory: None,
            file: path,
        }),
{
}

/// Without an explicit path the file is named after the identifier, and the
/// share directory matters only when sharing is enabled.
pub proof fn lemma_derived_target(
    sharing: bool,
    identifier: Seq<char>,
    share_dir: Seq<char>,
    other_dir: Seq<char>,
)
    ensures
        resolved_target(None, sharing, identifier, share_dir).file == derived_file_name(
            identifier,
        ),
        resolved_target(None, sharing, identifier, share_dir).directory is Some <==> sharing,
        sharing ==> resolved_target(None, sharing, identifier, share_dir).directory == Some(
            share_dir,
        ),
        !sharing ==> resolved_target(None, sharing, identifier, share_dir) == resolved_target(
            None,
            sharing,
            identifier,
            other_dir,
        ),
{
}

} // verus!
