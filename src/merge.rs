//! The merge of an item's completed streams into one output file, and the
//! checks and cleanup around it.

use crate::session::{after_removing, texts};
use crate::text::owned;
use vstd::prelude::*;

verus! {

/// What to do when an item's output file already exists.
#[derive(Clone, Copy, Debug, PartialEq, Eq, Structural)]
pub enum OverwriteMode {
    /// Ask the user for each existing output.
    Ask,
    /// Always download again.
    Overwrite,
    /// Never download again.
    Skip,
}

/// The verdict on an item's output file, taken before any transfer starts.
#[derive(Clone, Copy, Debug, PartialEq, Eq, Structural)]
pub enum OutputCheck {
    /// Download the item.
    Proceed,
    /// Leave the item; its output stays as it is.
    Skip,
    /// Ask the user whether to download the item again.
    Confirm,
}

/// The verdict for an output file that exists (`exists`) under `mode`.
pub open spec fn output_check_spec(mode: OverwriteMode, exists: bool) -> OutputCheck {
    if !exists {
        OutputCheck::Proceed
    } else {
        match mode {
            OverwriteMode::Skip => OutputCheck::Skip,
            OverwriteMode::Overwrite => OutputCheck::Proceed,
            OverwriteMode::Ask => OutputCheck::Confirm,
        }
    }
}

/// Checks an item's output file against the overwrite mode.
pub fn check_output(mode: OverwriteMode, exists: bool) -> (r: OutputCheck)
    ensures
        r == output_check_spec(mode, exists),
{
    if !exists {
        OutputCheck::Proceed
    } else {
        match mode {
            OverwriteMode::Skip => OutputCheck::Skip,
            OverwriteMode::Overwrite => OutputCheck::Proceed,
            OverwriteMode::Ask => OutputCheck::Confirm,
        }
    }
}

/// Whether the item is downloaded, given the verdict on its output and the
/// user's answer (used only when the verdict asks for one).
pub fn proceeds(check: OutputCheck, answer: bool) -> (r: bool)
    ensures
        r == match check {
            OutputCheck::Proceed => true,
            OutputCheck::Skip => false,
            OutputCheck::Confirm => answer,
        },
{
    match check {
        OutputCheck::Proceed => true,
        OutputCheck::Skip => false,
        OutputCheck::Confirm => answer,
    }
}

/// The inputs of a merge, video before audio.
pub fn merge_inputs(video_file: &String, audio_file: &String) -> (r: Vec<String>)
    ensures
        texts(r@) == seq![video_file@, audio_file@],
{
    let mut r: Vec<String> = Vec::new();
    r.push(video_file.clone());
    r.push(audio_file.clone());
    assert(texts(r@) =~= seq![video_file@, audio_file@]);
    r
}

/// The arguments of the external merge tool for one merge: each input
/// after `-i`, both codecs copied, then the output.
pub open spec fn merge_args_spec(inputs: Seq<Seq<char>>, output: Seq<char>) -> Seq<Seq<char>>
    decreases inputs.len(),
{
    if inputs.len() == 0 {
        seq!["-vcodec"@, "copy"@, "-acodec"@, "copy"@, output]
    } else {
        seq!["-i"@, inputs[0]] + merge_args_spec(inputs.drop_first(), output)
    }
}

/// The arguments of the external merge tool.
pub fn merge_command_args(inputs: &Vec<String>, output: &String) -> (r: Vec<String>)
    ensures
        texts(r@) == merge_args_spec(texts(inputs@), output@),
{
    let mut r: Vec<String> = Vec::new();
    let mut i: usize = 0;
    proof {
        assert(texts(inputs@).skip(0) =~= texts(inputs@));
        assert(texts(r@) =~= Seq::<Seq<char>>::empty());
        assert(texts(r@) + merge_args_spec(texts(inputs@), output@) =~= merge_args_spec(
            texts(inputs@),
            output@,
        ));
    }
    while i < inputs.len()
        invariant
            i <= inputs.len(),
            texts(r@) + merge_args_spec(texts(inputs@).skip(i as int), output@) == merge_args_spec(
                texts(inputs@),
                output@,
            ),
        decreases inputs.len() - i,
    {
        let ghost before = r@;
        proof {
            let rest = texts(inputs@).skip(i as int);
            assert(rest.drop_first() =~= texts(inputs@).skip(i + 1));
            assert(rest[0] == inputs@[i as int]@);
            assert(merge_args_spec(rest, output@) == seq!["-i"@, rest[0]] + merge_args_spec(
                rest.drop_first(),
                output@,
            ));
        }
        r.push(owned("-i"));
        r.push(inputs[i].clone());
        proof {
            assert(texts(r@) =~= texts(before) + seq!["-i"@, inputs@[i as int]@]);
            assert(texts(r@) + merge_args_spec(texts(inputs@).skip(i + 1), output@) =~= texts(
                before,
            ) + merge_args_spec(texts(inputs@).skip(i as int), output@));
        }
        i = i + 1;
    }
    let ghost before = r@;
    r.push(owned("-vcodec"));
    r.push(owned("copy"));
    r.push(owned("-acodec"));
    r.push(owned("copy"));
    r.push(output.clone());
    proof {
        assert(texts(inputs@).skip(i as int) =~= Seq::<Seq<char>>::empty());
        assert(texts(r@) =~= texts(before) + merge_args_spec(texts(inputs@).skip(i as int), output@));
    }
    r
}

/// Why a merge failed.
#[derive(Clone, Copy, Debug, PartialEq, Eq, Structural)]
pub enum MergeError {
    /// The merge tool could not be started.
    NotStarted,
    /// The merge tool exited with this non-zero code.
    ExitCode(i32),
    /// The merge tool was stopped before it exited.
    Killed,
}

/// The result of a merge, from the merge tool's exit: `Some(code)` when it
/// exited with `code`, `None` when it was stopped before it exited.
pub fn merge_result(exit: Option<i32>) -> (r: Result<(), MergeError>)
    ensures
        r == match exit {
            Some(0) => Ok(()),
            Some(c) => Err(MergeError::ExitCode(c)),
            None => Err(MergeError::Killed),
        },
{
    match exit {
        Some(c) => if c == 0 {
            Ok(())
        } else {
            Err(MergeError::ExitCode(c))
        },
        None => Err(MergeError::Killed),
    }
}

/// The files a merge deletes afterwards: after a success its inputs; after
/// a failure its (partial) output, and its inputs unless the resume policy
/// keeps them.
pub open spec fn merge_removed(
    inputs: Seq<Seq<char>>,
    output: Seq<char>,
    merged: bool,
    resume_policy: bool,
) -> Seq<Seq<char>> {
    if merged {
        inputs
    } else if resume_policy {
        seq![output]
    } else {
        seq![output] + inputs
    }
}

/// The files to delete after a merge.
pub fn merge_cleanup(inputs: &Vec<String>, output: &String, merged: bool, resume_policy: bool) -> (r:
    Vec<String>)
    ensures
        texts(r@) == merge_removed(texts(inputs@), output@, merged, resume_policy),
{
    let mut r: Vec<String> = Vec::new();
    if !merged {
        r.push(output.clone());
    }
    if merged || !resume_policy {
        let mut i: usize = 0;
        let ghost head = r@;
        while i < inputs.len()
            invariant
                i <= inputs.len(),
                texts(r@) == texts(head) + texts(inputs@).take(i as int),
            decreases inputs.len() - i,
        {
            let ghost before = r@;
            r.push(inputs[i].clone());
            proof {
                assert(texts(r@) =~= texts(before).push(inputs@[i as int]@));
                assert(texts(inputs@).take(i + 1) =~= texts(inputs@).take(i as int).push(
                    inputs@[i as int]@,
                ));
                assert(texts(r@) =~= texts(head) + texts(inputs@).take(i + 1));
            }
            i = i + 1;
        }
        proof {
            assert(texts(inputs@).take(i as int) =~= texts(inputs@));
        }
    }
    proof {
        if !merged && resume_policy {
            assert(texts(r@) =~= seq![output@]);
        }
        if !merged && !resume_policy {
            assert(texts(r@) =~= seq![output@] + texts(inputs@));
        }
        if merged {
            assert(texts(r@) =~= texts(inputs@));
        }
    }
    r
}

/// After a successful merge, of the item's files only the output is left;
/// after a failed one the output is gone, and the inputs on disk stay if and
/// only if the resume policy keeps them.
pub proof fn merge_cleanup_leaves(
    disk: Set<Seq<char>>,
    inputs: Seq<Seq<char>>,
    output: Seq<char>,
    merged: bool,
    resume_policy: bool,
)
    requires
        !inputs.contains(output),
        merged ==> disk.contains(output),
    ensures
        ({
            let after = after_removing(disk, merge_removed(inputs, output, merged, resume_policy));
            let item = inputs.to_set().insert(output);
            &&& merged ==> after.intersect(item) == set![output]
            &&& !merged ==> !after.contains(output)
            &&& !merged && resume_policy ==> forall|i: int|
                0 <= i < inputs.len() && disk.contains(#[trigger] inputs[i]) ==> after.contains(
                    inputs[i],
                )
            &&& !merged && !resume_policy ==> forall|i: int|
                0 <= i < inputs.len() ==> !after.contains(#[trigger] inputs[i])
        }),
{
    let after = after_removing(disk, merge_removed(inputs, output, merged, resume_policy));
    let item = inputs.to_set().insert(output);
    if merged {
        assert(after.intersect(item) =~= set![output]);
    } else {
        assert(merge_removed(inputs, output, merged, resume_policy)[0] == output);
        if !resume_policy {
            assert forall|i: int| 0 <= i < inputs.len() implies !after.contains(
                #[trigger] inputs[i],
            ) by {
                assert((seq![output] + inputs)[i + 1] == inputs[i]);
            }
        } else {
            assert forall|i: int|
                0 <= i < inputs.len() && disk.contains(#[trigger] inputs[i]) implies after.contains(
                inputs[i],
            ) by {
                assert(inputs[i] != output);
                assert(!seq![output].contains(inputs[i]));
            }
        }
    }
}

} // verus!
