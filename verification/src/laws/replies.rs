//! What the replies say, of what i3 replied.

use vstd::prelude::*;

use crate::decode::{Decode, Reply};
use crate::error::DecodeError;
use crate::json::{parsed, parsed_strings, texts, Json, Tree};
use crate::laws::documents::{
    found_is_member, has_bool, has_integer, has_member, has_place, has_rect, has_text,
    is_low_half, lacks, list_of_texts, rect_is_found,
};
use crate::reply::{
    BarIds, BindingModes, Command, CommandOutcome, Config, Marks, Output, Outputs, Subscribe,
    Version, Workspace, Workspaces,
};

verus! {

/// What reading `tree` as an outcome comes to.
spec fn outcome_follows_members(tree: Tree) -> bool {
    &&& CommandOutcome::readable(tree) <==> has_bool(tree, "success"@)
        && (lacks(tree, "error"@) || has_text(tree, "error"@))
    &&& forall|outcome: CommandOutcome, b: bool|
        #[trigger] outcome.reads(tree) && #[trigger] has_member(tree, "success"@, Tree::Bool(b))
            ==> outcome.success == b
    &&& forall|outcome: CommandOutcome, text: Seq<char>|
        #[trigger] outcome.reads(tree) && #[trigger] has_member(tree, "error"@, Tree::String(text))
            ==> outcome.error is Some && outcome.error->Some_0@ == text
    &&& forall|outcome: CommandOutcome| #[trigger]
        outcome.reads(tree) && lacks(tree, "error"@) ==> outcome.error is None
}

proof fn outcome_members(tree: Tree)
    requires
        tree.is_unambiguous(),
    ensures
        outcome_follows_members(tree),
{
    found_is_member(tree, "success"@);
    found_is_member(tree, "error"@);
}

/// An outcome is read if it has a boolean "success" and its "error", where there is one, is a text.
/// These two are what it says.
pub proof fn outcome_is_read(json: &Json, r: Option<CommandOutcome>)
    requires
        call_ensures(<CommandOutcome as Decode>::from_json, (json,), r),
        json@.is_unambiguous(),
    ensures
        r is Some <==> has_bool(json@, "success"@)
            && (lacks(json@, "error"@) || has_text(json@, "error"@)),
        r matches Some(outcome) ==> forall|b: bool| #[trigger]
            has_member(json@, "success"@, Tree::Bool(b)) ==> outcome.success == b,
        r matches Some(outcome) ==> forall|text: Seq<char>| #[trigger]
            has_member(json@, "error"@, Tree::String(text))
                ==> outcome.error is Some && outcome.error->Some_0@ == text,
        r matches Some(outcome) ==> (lacks(json@, "error"@) ==> outcome.error is None),
{
    outcome_members(json@);
}

/// What reading `tree` as a workspace comes to.
spec fn workspace_follows_members(tree: Tree) -> bool {
    &&& Workspace::readable(tree) <==> has_integer(tree, "num"@)
        && has_text(tree, "name"@)
        && has_bool(tree, "visible"@)
        && has_bool(tree, "focused"@)
        && has_bool(tree, "urgent"@)
        && has_rect(tree, "rect"@)
        && has_text(tree, "output"@)
    &&& forall|workspace: Workspace, n: i64, digits: Seq<char>|
        #[trigger] workspace.reads(tree)
            && #[trigger] has_member(tree, "num"@, Tree::Number(Some(n), digits))
            ==> is_low_half(workspace.num, n)
    &&& forall|workspace: Workspace, text: Seq<char>|
        #[trigger] workspace.reads(tree) && #[trigger] has_member(tree, "name"@, Tree::String(text))
            ==> workspace.name@ == text
    &&& forall|workspace: Workspace, b: bool|
        #[trigger] workspace.reads(tree) && #[trigger] has_member(tree, "visible"@, Tree::Bool(b))
            ==> workspace.visible == b
    &&& forall|workspace: Workspace, b: bool|
        #[trigger] workspace.reads(tree) && #[trigger] has_member(tree, "focused"@, Tree::Bool(b))
            ==> workspace.focused == b
    &&& forall|workspace: Workspace, b: bool|
        #[trigger] workspace.reads(tree) && #[trigger] has_member(tree, "urgent"@, Tree::Bool(b))
            ==> workspace.urgent == b
    &&& forall|workspace: Workspace, value: Tree|
        #[trigger] workspace.reads(tree) && #[trigger] has_member(tree, "rect"@, value)
            ==> has_place(workspace.rect, value)
    &&& forall|workspace: Workspace, text: Seq<char>|
        #[trigger] workspace.reads(tree)
            && #[trigger] has_member(tree, "output"@, Tree::String(text))
            ==> workspace.output@ == text
}

proof fn workspace_members(tree: Tree)
    requires
        tree.is_unambiguous(),
    ensures
        workspace_follows_members(tree),
{
    found_is_member(tree, "num"@);
    found_is_member(tree, "name"@);
    found_is_member(tree, "visible"@);
    found_is_member(tree, "focused"@);
    found_is_member(tree, "urgent"@);
    found_is_member(tree, "rect"@);
    rect_is_found(tree, "rect"@);
    found_is_member(tree, "output"@);
}

/// A workspace is read if its members are there, each of its kind. Each field is the member of the
/// same name.
pub proof fn workspace_is_read(json: &Json, r: Option<Workspace>)
    requires
        call_ensures(<Workspace as Decode>::from_json, (json,), r),
        json@.is_unambiguous(),
    ensures
        r is Some <==> has_integer(json@, "num"@)
            && has_text(json@, "name"@)
            && has_bool(json@, "visible"@)
            && has_bool(json@, "focused"@)
            && has_bool(json@, "urgent"@)
            && has_rect(json@, "rect"@)
            && has_text(json@, "output"@),
        r matches Some(workspace) ==> forall|n: i64, digits: Seq<char>| #[trigger]
            has_member(json@, "num"@, Tree::Number(Some(n), digits))
                ==> is_low_half(workspace.num, n),
        r matches Some(workspace) ==> forall|text: Seq<char>| #[trigger]
            has_member(json@, "name"@, Tree::String(text)) ==> workspace.name@ == text,
        r matches Some(workspace) ==> forall|b: bool| #[trigger]
            has_member(json@, "visible"@, Tree::Bool(b)) ==> workspace.visible == b,
        r matches Some(workspace) ==> forall|b: bool| #[trigger]
            has_member(json@, "focused"@, Tree::Bool(b)) ==> workspace.focused == b,
        r matches Some(workspace) ==> forall|b: bool| #[trigger]
            has_member(json@, "urgent"@, Tree::Bool(b)) ==> workspace.urgent == b,
        r matches Some(workspace) ==> forall|value: Tree| #[trigger]
            has_member(json@, "rect"@, value) ==> has_place(workspace.rect, value),
        r matches Some(workspace) ==> forall|text: Seq<char>| #[trigger]
            has_member(json@, "output"@, Tree::String(text)) ==> workspace.output@ == text,
{
    workspace_members(json@);
}

/// What reading `tree` as an output comes to.
spec fn output_follows_members(tree: Tree) -> bool {
    &&& Output::readable(tree) <==> has_text(tree, "name"@)
        && has_bool(tree, "active"@)
        && has_bool(tree, "primary"@)
        && (has_text(tree, "current_workspace"@)
        || has_member(tree, "current_workspace"@, Tree::Null))
        && has_rect(tree, "rect"@)
    &&& forall|output: Output, text: Seq<char>|
        #[trigger] output.reads(tree) && #[trigger] has_member(tree, "name"@, Tree::String(text))
            ==> output.name@ == text
    &&& forall|output: Output, b: bool|
        #[trigger] output.reads(tree) && #[trigger] has_member(tree, "active"@, Tree::Bool(b))
            ==> output.active == b
    &&& forall|output: Output, b: bool|
        #[trigger] output.reads(tree) && #[trigger] has_member(tree, "primary"@, Tree::Bool(b))
            ==> output.primary == b
    &&& forall|output: Output, text: Seq<char>|
        #[trigger] output.reads(tree)
            && #[trigger] has_member(tree, "current_workspace"@, Tree::String(text))
            ==> output.current_workspace is Some && output.current_workspace->Some_0@ == text
    &&& forall|output: Output| #[trigger]
        output.reads(tree) && has_member(tree, "current_workspace"@, Tree::Null)
            ==> output.current_workspace is None
    &&& forall|output: Output, value: Tree|
        #[trigger] output.reads(tree) && #[trigger] has_member(tree, "rect"@, value)
            ==> has_place(output.rect, value)
}

proof fn output_members(tree: Tree)
    requires
        tree.is_unambiguous(),
    ensures
        output_follows_members(tree),
{
    found_is_member(tree, "name"@);
    found_is_member(tree, "active"@);
    found_is_member(tree, "primary"@);
    found_is_member(tree, "current_workspace"@);
    found_is_member(tree, "rect"@);
    rect_is_found(tree, "rect"@);
}

/// An output is read if its members are there, each of its kind. Each field is the member of the
/// same name.
pub proof fn output_is_read(json: &Json, r: Option<Output>)
    requires
        call_ensures(<Output as Decode>::from_json, (json,), r),
        json@.is_unambiguous(),
    ensures
        r is Some <==> has_text(json@, "name"@)
            && has_bool(json@, "active"@)
            && has_bool(json@, "primary"@)
            && (has_text(json@, "current_workspace"@)
            || has_member(json@, "current_workspace"@, Tree::Null))
            && has_rect(json@, "rect"@),
        r matches Some(output) ==> forall|text: Seq<char>| #[trigger]
            has_member(json@, "name"@, Tree::String(text)) ==> output.name@ == text,
        r matches Some(output) ==> forall|b: bool| #[trigger]
            has_member(json@, "active"@, Tree::Bool(b)) ==> output.active == b,
        r matches Some(output) ==> forall|b: bool| #[trigger]
            has_member(json@, "primary"@, Tree::Bool(b)) ==> output.primary == b,
        r matches Some(output) ==> forall|text: Seq<char>| #[trigger]
            has_member(json@, "current_workspace"@, Tree::String(text))
                ==> output.current_workspace is Some && output.current_workspace->Some_0@ == text,
        r matches Some(output) ==> (has_member(json@, "current_workspace"@, Tree::Null)
            ==> output.current_workspace is None),
        r matches Some(output) ==> forall|value: Tree| #[trigger]
            has_member(json@, "rect"@, value) ==> has_place(output.rect, value),
{
    output_members(json@);
}

/// A subscription was successful if the member "success" says so. It is read if that is a boolean.
pub proof fn subscription_is_read(json: &Json, r: Option<Subscribe>)
    requires
        call_ensures(<Subscribe as Decode>::from_json, (json,), r),
        json@.is_unambiguous(),
    ensures
        r is Some <==> has_bool(json@, "success"@),
        r matches Some(reply) ==> forall|b: bool| #[trigger]
            has_member(json@, "success"@, Tree::Bool(b)) ==> reply.success == b,
{
    found_is_member(json@, "success"@);
}

/// A version is read if its members are there, each of its kind. Each field is the member of the
/// same name.
pub proof fn version_is_read(json: &Json, r: Option<Version>)
    requires
        call_ensures(<Version as Decode>::from_json, (json,), r),
        json@.is_unambiguous(),
    ensures
        r is Some <==> has_integer(json@, "major"@)
            && has_integer(json@, "minor"@)
            && has_integer(json@, "patch"@)
            && has_text(json@, "human_readable"@)
            && has_text(json@, "loaded_config_file_name"@),
        r matches Some(version) ==> forall|n: i64, digits: Seq<char>| #[trigger]
            has_member(json@, "major"@, Tree::Number(Some(n), digits))
                ==> is_low_half(version.major, n),
        r matches Some(version) ==> forall|n: i64, digits: Seq<char>| #[trigger]
            has_member(json@, "minor"@, Tree::Number(Some(n), digits))
                ==> is_low_half(version.minor, n),
        r matches Some(version) ==> forall|n: i64, digits: Seq<char>| #[trigger]
            has_member(json@, "patch"@, Tree::Number(Some(n), digits))
                ==> is_low_half(version.patch, n),
        r matches Some(version) ==> forall|text: Seq<char>| #[trigger]
            has_member(json@, "human_readable"@, Tree::String(text))
                ==> version.human_readable@ == text,
        r matches Some(version) ==> forall|text: Seq<char>| #[trigger]
            has_member(json@, "loaded_config_file_name"@, Tree::String(text))
                ==> version.loaded_config_file_name@ == text,
{
    found_is_member(json@, "major"@);
    found_is_member(json@, "minor"@);
    found_is_member(json@, "patch"@);
    found_is_member(json@, "human_readable"@);
    found_is_member(json@, "loaded_config_file_name"@);
}

/// A configuration is read if there is a text "config". It is that text.
pub proof fn config_is_read(json: &Json, r: Option<Config>)
    requires
        call_ensures(<Config as Decode>::from_json, (json,), r),
        json@.is_unambiguous(),
    ensures
        r is Some <==> has_text(json@, "config"@),
        r matches Some(config) ==> forall|text: Seq<char>| #[trigger]
            has_member(json@, "config"@, Tree::String(text)) ==> config.config@ == text,
{
    found_is_member(json@, "config"@);
}

/// There are as many outcomes as items, and outcome `i` is what item `i` says: its "success" is
/// that of the item, and so is its "error". They are read if every item can be.
pub proof fn command_is_read(json: &Json, items: Seq<Tree>, r: Option<Command>)
    requires
        call_ensures(<Command as Decode>::from_json, (json,), r),
        json@ == Tree::Array(items),
        json@.is_unambiguous(),
    ensures
        r is Some <==> forall|i: int|
            #![trigger items[i]]
            0 <= i < items.len() ==> has_bool(items[i], "success"@)
                && (lacks(items[i], "error"@) || has_text(items[i], "error"@)),
        r matches Some(reply) ==> reply.outcomes@.len() == items.len(),
        r matches Some(reply) ==> forall|i: int, b: bool|
            0 <= i < items.len() && #[trigger] has_member(items[i], "success"@, Tree::Bool(b))
                ==> reply.outcomes@[i].success == b,
        r matches Some(reply) ==> forall|i: int, text: Seq<char>|
            0 <= i < items.len() && #[trigger] has_member(items[i], "error"@, Tree::String(text))
                ==> reply.outcomes@[i].error is Some && reply.outcomes@[i].error->Some_0@ == text,
        r matches Some(reply) ==> forall|i: int|
            #![trigger items[i]]
            #![trigger reply.outcomes@[i]]
            0 <= i < items.len() && lacks(items[i], "error"@)
                ==> reply.outcomes@[i].error is None,
{
    assert forall|i: int| 0 <= i < items.len() implies outcome_follows_members(
        #[trigger] items[i],
    ) by {
        outcome_members(items[i]);
    }
    if let Some(reply) = r {
        assert forall|i: int| 0 <= i < items.len() implies reply.outcomes@[i].reads(
            #[trigger] items[i],
        ) by {
            assert(reply.outcomes@[i].reads(items[i]));
        }
    }
}

/// There are as many workspaces as items, and workspace `i` is what item `i` says. They are read if
/// every item can be.
pub proof fn workspaces_are_read(json: &Json, items: Seq<Tree>, r: Option<Workspaces>)
    requires
        call_ensures(<Workspaces as Decode>::from_json, (json,), r),
        json@ == Tree::Array(items),
        json@.is_unambiguous(),
    ensures
        r is Some <==> forall|i: int|
            #![trigger items[i]]
            0 <= i < items.len() ==> has_integer(items[i], "num"@)
                && has_text(items[i], "name"@)
                && has_bool(items[i], "visible"@)
                && has_bool(items[i], "focused"@)
                && has_bool(items[i], "urgent"@)
                && has_rect(items[i], "rect"@)
                && has_text(items[i], "output"@),
        r matches Some(reply) ==> reply.workspaces@.len() == items.len(),
        r matches Some(reply) ==> forall|i: int, n: i64, digits: Seq<char>|
            0 <= i < items.len()
                && #[trigger] has_member(items[i], "num"@, Tree::Number(Some(n), digits))
                ==> is_low_half(reply.workspaces@[i].num, n),
        r matches Some(reply) ==> forall|i: int, text: Seq<char>|
            0 <= i < items.len() && #[trigger] has_member(items[i], "name"@, Tree::String(text))
                ==> reply.workspaces@[i].name@ == text,
        r matches Some(reply) ==> forall|i: int, b: bool|
            0 <= i < items.len() && #[trigger] has_member(items[i], "visible"@, Tree::Bool(b))
                ==> reply.workspaces@[i].visible == b,
        r matches Some(reply) ==> forall|i: int, b: bool|
            0 <= i < items.len() && #[trigger] has_member(items[i], "focused"@, Tree::Bool(b))
                ==> reply.workspaces@[i].focused == b,
        r matches Some(reply) ==> forall|i: int, b: bool|
            0 <= i < items.len() && #[trigger] has_member(items[i], "urgent"@, Tree::Bool(b))
                ==> reply.workspaces@[i].urgent == b,
        r matches Some(reply) ==> forall|i: int, value: Tree|
            0 <= i < items.len() && #[trigger] has_member(items[i], "rect"@, value)
                ==> has_place(reply.workspaces@[i].rect, value),
        r matches Some(reply) ==> forall|i: int, text: Seq<char>|
            0 <= i < items.len() && #[trigger] has_member(items[i], "output"@, Tree::String(text))
                ==> reply.workspaces@[i].output@ == text,
{
    assert forall|i: int| 0 <= i < items.len() implies workspace_follows_members(
        #[trigger] items[i],
    ) by {
        workspace_members(items[i]);
    }
    if let Some(reply) = r {
        assert forall|i: int| 0 <= i < items.len() implies reply.workspaces@[i].reads(
            #[trigger] items[i],
        ) by {
            assert(reply.workspaces@[i].reads(items[i]));
        }
    }
}

/// There are as many outputs as items, and output `i` is what item `i` says. They are read if every
/// item can be.
pub proof fn outputs_are_read(json: &Json, items: Seq<Tree>, r: Option<Outputs>)
    requires
        call_ensures(<Outputs as Decode>::from_json, (json,), r),
        json@ == Tree::Array(items),
        json@.is_unambiguous(),
    ensures
        r is Some <==> forall|i: int|
            #![trigger items[i]]
            0 <= i < items.len() ==> has_text(items[i], "name"@)
                && has_bool(items[i], "active"@)
                && has_bool(items[i], "primary"@)
                && (has_text(items[i], "current_workspace"@)
                || has_member(items[i], "current_workspace"@, Tree::Null))
                && has_rect(items[i], "rect"@),
        r matches Some(reply) ==> reply.outputs@.len() == items.len(),
        r matches Some(reply) ==> forall|i: int, text: Seq<char>|
            0 <= i < items.len() && #[trigger] has_member(items[i], "name"@, Tree::String(text))
                ==> reply.outputs@[i].name@ == text,
        r matches Some(reply) ==> forall|i: int, b: bool|
            0 <= i < items.len() && #[trigger] has_member(items[i], "active"@, Tree::Bool(b))
                ==> reply.outputs@[i].active == b,
        r matches Some(reply) ==> forall|i: int, b: bool|
            0 <= i < items.len() && #[trigger] has_member(items[i], "primary"@, Tree::Bool(b))
                ==> reply.outputs@[i].primary == b,
        r matches Some(reply) ==> forall|i: int, text: Seq<char>|
            0 <= i < items.len()
                && #[trigger] has_member(items[i], "current_workspace"@, Tree::String(text))
                ==> reply.outputs@[i].current_workspace is Some
                && reply.outputs@[i].current_workspace->Some_0@ == text,
        r matches Some(reply) ==> forall|i: int|
            #![trigger items[i]]
            #![trigger reply.outputs@[i]]
            0 <= i < items.len() && has_member(items[i], "current_workspace"@, Tree::Null)
                ==> reply.outputs@[i].current_workspace is None,
        r matches Some(reply) ==> forall|i: int, value: Tree|
            0 <= i < items.len() && #[trigger] has_member(items[i], "rect"@, value)
                ==> has_place(reply.outputs@[i].rect, value),
{
    assert forall|i: int| 0 <= i < items.len() implies output_follows_members(
        #[trigger] items[i],
    ) by {
        output_members(items[i]);
    }
    if let Some(reply) = r {
        assert forall|i: int| 0 <= i < items.len() implies reply.outputs@[i].reads(
            #[trigger] items[i],
        ) by {
            assert(reply.outputs@[i].reads(items[i]));
        }
    }
}

/// Outcomes, workspaces and outputs are listed in an array. Nothing else is such a list.
pub proof fn lists_are_arrays(
    json: &Json,
    command: Option<Command>,
    workspaces: Option<Workspaces>,
    outputs: Option<Outputs>,
)
    requires
        call_ensures(<Command as Decode>::from_json, (json,), command),
        call_ensures(<Workspaces as Decode>::from_json, (json,), workspaces),
        call_ensures(<Outputs as Decode>::from_json, (json,), outputs),
        !(json@ is Array),
    ensures
        command is None,
        workspaces is None,
        outputs is None,
{
}

/// Where i3 shows every workspace that it focuses, every focused workspace is visible.
pub proof fn focused_workspaces_are_visible(json: &Json, items: Seq<Tree>, reply: Workspaces)
    requires
        call_ensures(<Workspaces as Decode>::from_json, (json,), Some(reply)),
        json@ == Tree::Array(items),
        json@.is_unambiguous(),
        forall|i: int|
            0 <= i < items.len() && #[trigger] has_member(items[i], "focused"@, Tree::Bool(true))
                ==> has_member(items[i], "visible"@, Tree::Bool(true)),
    ensures
        forall|i: int|
            0 <= i < reply.workspaces@.len() && (#[trigger] reply.workspaces@[i]).focused
                ==> reply.workspaces@[i].visible,
{
    workspaces_are_read(json, items, Some(reply));
    assert forall|i: int|
        0 <= i < reply.workspaces@.len() && (#[trigger] reply.workspaces@[i]).focused implies
        reply.workspaces@[i].visible by {
        assert(has_bool(items[i], "focused"@));
        let b = choose|b: bool| #[trigger] has_member(items[i], "focused"@, Tree::Bool(b));
        assert(has_member(items[i], "focused"@, Tree::Bool(b)));
        assert(has_member(items[i], "visible"@, Tree::Bool(true)));
    }
}

/// The outcomes of two runs of commands after each other are those of the first, then those of the
/// second.
pub proof fn outcomes_add_up(
    first: &Json,
    second: &Json,
    both: &Json,
    items1: Seq<Tree>,
    items2: Seq<Tree>,
    r1: Command,
    r2: Command,
    r: Command,
)
    requires
        call_ensures(<Command as Decode>::from_json, (first,), Some(r1)),
        call_ensures(<Command as Decode>::from_json, (second,), Some(r2)),
        call_ensures(<Command as Decode>::from_json, (both,), Some(r)),
        first@ == Tree::Array(items1),
        second@ == Tree::Array(items2),
        both@ == Tree::Array(items1 + items2),
    ensures
        r.outcomes@.len() == r1.outcomes@.len() + r2.outcomes@.len(),
        forall|i: int|
            0 <= i < r1.outcomes@.len() ==> (#[trigger] r.outcomes@[i]).success
                == r1.outcomes@[i].success,
        forall|i: int|
            0 <= i < r2.outcomes@.len() ==> (#[trigger] r2.outcomes@[i]).success
                == r.outcomes@[r1.outcomes@.len() + i].success,
{
    let items = items1 + items2;
    assert forall|i: int| 0 <= i < r1.outcomes@.len() implies (#[trigger] r.outcomes@[i]).success
        == r1.outcomes@[i].success by {
        assert(items[i] == items1[i]);
        assert(r.outcomes@[i].reads(items[i]) && r1.outcomes@[i].reads(items1[i]));
    }
    assert forall|i: int| 0 <= i < r2.outcomes@.len() implies (#[trigger] r2.outcomes@[i]).success
        == r.outcomes@[r1.outcomes@.len() + i].success by {
        let j = r1.outcomes@.len() + i;
        assert(items[j] == items2[i]);
        assert(r.outcomes@[j].reads(items[j]) && r2.outcomes@[i].reads(items2[i]));
    }
}

/// A payload that is no JSON is answered with the error that parsing it gives. One that is JSON is
/// never answered with such an error: it is read, or it is unexpected.
pub proof fn payload_is_answered<T: Decode>(text: &str, r: Result<T, DecodeError>)
    requires
        call_ensures(<T as Reply>::from_payload, (text,), r),
    ensures
        parsed(text@) matches Err(e) ==> r == Err::<T, DecodeError>(
            DecodeError::JsonCouldntParse(e),
        ),
        parsed(text@) is Ok ==> r is Ok || r == Err::<T, DecodeError>(DecodeError::Unexpected),
{
}

/// A payload is read as the document in it is.
pub proof fn payload_is_its_document<T: Decode>(
    text: &str,
    r: Result<T, DecodeError>,
    json: &Json,
    from_json: Option<T>,
)
    requires
        call_ensures(<T as Reply>::from_payload, (text,), r),
        call_ensures(<T as Decode>::from_json, (json,), from_json),
        parsed(text@) == Ok::<Tree, serde_json::Error>(json@),
    ensures
        r is Ok <==> from_json is Some,
        r matches Ok(value) ==> value.reads(json@),
{
}

/// The payload is read if it is an array of texts. There are as many marks as items, and number `i`
/// is item `i`. Any other payload is answered with the error that asking for such an array gives.
pub proof fn marks_are_read(text: &str, r: Result<Marks, DecodeError>)
    requires
        call_ensures(<Marks as Reply>::from_payload, (text,), r),
    ensures
        r is Ok <==> (parsed(text@) matches Ok(Tree::Array(items)) && forall|i: int|
            0 <= i < items.len() ==> (#[trigger] items[i]) is String),
        r matches Ok(reply) ==> (parsed(text@) matches Ok(Tree::Array(items))
            && reply.marks@.len() == items.len() && forall|i: int|
            0 <= i < items.len() ==> #[trigger] items[i] == Tree::String(reply.marks@[i]@)),
        r matches Err(e) ==> (parsed_strings(text@) matches Err(cause) && e
            == DecodeError::JsonCouldntParse(cause)),
{
    if let Ok(reply) = r {
        list_of_texts(parsed(text@), texts(reply.marks@));
    }
}

/// The payload is read if it is an array of texts. There are as many ids as items, and number `i`
/// is item `i`. Any other payload is answered with the error that asking for such an array gives.
pub proof fn bar_ids_are_read(text: &str, r: Result<BarIds, DecodeError>)
    requires
        call_ensures(<BarIds as Reply>::from_payload, (text,), r),
    ensures
        r is Ok <==> (parsed(text@) matches Ok(Tree::Array(items)) && forall|i: int|
            0 <= i < items.len() ==> (#[trigger] items[i]) is String),
        r matches Ok(reply) ==> (parsed(text@) matches Ok(Tree::Array(items))
            && reply.ids@.len() == items.len() && forall|i: int|
            0 <= i < items.len() ==> #[trigger] items[i] == Tree::String(reply.ids@[i]@)),
        r matches Err(e) ==> (parsed_strings(text@) matches Err(cause) && e
            == DecodeError::JsonCouldntParse(cause)),
{
    if let Ok(reply) = r {
        list_of_texts(parsed(text@), texts(reply.ids@));
    }
}

/// The payload is read if it is an array of texts. There are as many modes as items, and number `i`
/// is item `i`. Any other payload is answered with the error that asking for such an array gives.
pub proof fn binding_modes_are_read(text: &str, r: Result<BindingModes, DecodeError>)
    requires
        call_ensures(<BindingModes as Reply>::from_payload, (text,), r),
    ensures
        r is Ok <==> (parsed(text@) matches Ok(Tree::Array(items)) && forall|i: int|
            0 <= i < items.len() ==> (#[trigger] items[i]) is String),
        r matches Ok(reply) ==> (parsed(text@) matches Ok(Tree::Array(items))
            && reply.modes@.len() == items.len() && forall|i: int|
            0 <= i < items.len() ==> #[trigger] items[i] == Tree::String(reply.modes@[i]@)),
        r matches Err(e) ==> (parsed_strings(text@) matches Err(cause) && e
            == DecodeError::JsonCouldntParse(cause)),
{
    if let Ok(reply) = r {
        list_of_texts(parsed(text@), texts(reply.modes@));
    }
}

} // verus!
