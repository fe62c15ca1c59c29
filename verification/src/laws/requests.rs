//! What is asked of i3, and in what bytes.

use vstd::prelude::*;
use vstd::utf8::encode_utf8;

use crate::bar::BarConfig;
use crate::decode::Reply;
use crate::exchange::{Exchange, Stage};
use crate::frame::{encode_message, frames_differ, le_u32_of_u32_le, magic, u32_le};
use crate::node::Node;
use crate::reply::{
    BarIds, BindingModes, Command, Config, Marks, Outputs, Subscribe, Version, Workspaces,
};
use crate::request::{listed, Request, Subscription};

verus! {

/// A request without an argument says what it asks for by its type alone: its payload is empty.
pub proof fn questions_have_their_types(
    workspaces: Request<Workspaces>,
    outputs: Request<Outputs>,
    tree: Request<Node>,
    marks: Request<Marks>,
    bar_ids: Request<BarIds>,
    version: Request<Version>,
    binding_modes: Request<BindingModes>,
    config: Request<Config>,
)
    requires
        call_ensures(Request::<Workspaces>::get_workspaces, (), workspaces),
        call_ensures(Request::<Outputs>::get_outputs, (), outputs),
        call_ensures(Request::<Node>::get_tree, (), tree),
        call_ensures(Request::<Marks>::get_marks, (), marks),
        call_ensures(Request::<BarIds>::get_bar_ids, (), bar_ids),
        call_ensures(Request::<Version>::get_version, (), version),
        call_ensures(Request::<BindingModes>::get_binding_modes, (), binding_modes),
        call_ensures(Request::<Config>::get_config, (), config),
    ensures
        workspaces.message_type == 1 && workspaces.payload@.len() == 0,
        outputs.message_type == 3 && outputs.payload@.len() == 0,
        tree.message_type == 4 && tree.payload@.len() == 0,
        marks.message_type == 5 && marks.payload@.len() == 0,
        bar_ids.message_type == 6 && bar_ids.payload@.len() == 0,
        version.message_type == 7 && version.payload@.len() == 0,
        binding_modes.message_type == 8 && binding_modes.payload@.len() == 0,
        config.message_type == 9 && config.payload@.len() == 0,
{
}

/// A command, under either name, and the id of a bar are sent as they are, character by character.
pub proof fn arguments_are_sent_as_they_are(
    text: &str,
    run_command: Request<Command>,
    command: Request<Command>,
    bar_config: Request<BarConfig>,
)
    requires
        call_ensures(Request::<Command>::run_command, (text,), run_command),
        call_ensures(Request::<Command>::command, (text,), command),
        call_ensures(Request::<BarConfig>::get_bar_config, (text,), bar_config),
    ensures
        run_command.message_type == 0 && run_command.payload@ == text@,
        command.message_type == 0 && command.payload@ == text@,
        bar_config.message_type == 6 && bar_config.payload@ == text@,
{
}

/// Asking for the configuration of a bar differs from asking for the ids of all bars only in that
/// it names the bar.
pub proof fn bars_are_asked_for_alike(
    id: &str,
    bar_ids: Request<BarIds>,
    bar_config: Request<BarConfig>,
)
    requires
        call_ensures(Request::<BarIds>::get_bar_ids, (), bar_ids),
        call_ensures(Request::<BarConfig>::get_bar_config, (id,), bar_config),
    ensures
        bar_config.message_type == bar_ids.message_type,
        bar_config.payload@ == bar_ids.payload@ + id@,
{
    assert(bar_ids.payload@ + id@ =~= id@);
}

/// Each event is subscribed to by its own name, in quotes.
pub proof fn events_have_their_names(event: &Subscription, r: &'static str)
    requires
        call_ensures(Subscription::quoted_name, (event,), r),
    ensures
        *event is Workspace ==> r@ == "\"workspace\""@,
        *event is Output ==> r@ == "\"output\""@,
        *event is Mode ==> r@ == "\"mode\""@,
        *event is Window ==> r@ == "\"window\""@,
        *event is BarConfig ==> r@ == "\"barconfig_update\""@,
        *event is Binding ==> r@ == "\"binding\""@,
        *event is Shutdown ==> r@ == "\"shutdown\""@,
{
}

/// A subscription to a single event is its name in a list, and one to none is an empty list.
pub proof fn subscription_names_its_event(
    events: &[Subscription],
    r: Request<Subscribe>,
    name: &'static str,
)
    requires
        call_ensures(Request::<Subscribe>::subscribe, (events,), r),
        events@.len() > 0 ==> call_ensures(Subscription::quoted_name, (&events@[0],), name),
    ensures
        r.message_type == 2,
        events@.len() == 1 ==> r.payload@ == "[ "@ + name@ + " ]"@,
        events@.len() == 0 ==> r.payload@ == "[ "@ + " ]"@,
{
    if events@.len() == 0 {
        assert("[ "@ + Seq::<char>::empty() + " ]"@ =~= "[ "@ + " ]"@);
    }
}

proof fn list_is_listed_in_order(a: Seq<Subscription>, b: Seq<Subscription>)
    requires
        a.len() > 0,
        b.len() > 0,
    ensures
        listed(a + b) == listed(a) + ", "@ + listed(b),
    decreases b.len(),
{
    let both = a + b;
    assert(both.drop_last() =~= a + b.drop_last());
    if b.len() == 1 {
        assert(both.drop_last() =~= a);
    } else {
        list_is_listed_in_order(a, b.drop_last());
        assert(listed(both) =~= listed(a) + ", "@ + listed(b));
    }
}

/// A subscription to some events and then some more names the first ones, then the others, with a
/// comma and a space between.
pub proof fn subscriptions_add_up(
    first: &[Subscription],
    second: &[Subscription],
    both: &[Subscription],
    r1: Request<Subscribe>,
    r2: Request<Subscribe>,
    r: Request<Subscribe>,
)
    requires
        call_ensures(Request::<Subscribe>::subscribe, (first,), r1),
        call_ensures(Request::<Subscribe>::subscribe, (second,), r2),
        call_ensures(Request::<Subscribe>::subscribe, (both,), r),
        both@ == first@ + second@,
        first@.len() > 0,
        second@.len() > 0,
    ensures
        r1.payload@.len() >= 4 && r2.payload@.len() >= 4,
        r.payload@ == r1.payload@.take(r1.payload@.len() - 2) + ", "@ + r2.payload@.skip(2),
{
    reveal_strlit("[ ");
    reveal_strlit(" ]");
    reveal_strlit(", ");
    list_is_listed_in_order(first@, second@);
    assert(r1.payload@.take(r1.payload@.len() - 2) =~= "[ "@ + listed(first@));
    assert(r2.payload@.skip(2) =~= listed(second@) + " ]"@);
    assert(r.payload@ =~= r1.payload@.take(r1.payload@.len() - 2) + ", "@ + r2.payload@.skip(2));
}

/// The number that four bytes are, the least significant of them first.
pub open spec fn number_of(b0: u8, b1: u8, b2: u8, b3: u8) -> int {
    b0 + 0x100 * b1 + 0x1_0000 * b2 + 0x100_0000 * b3
}

proof fn bytes_make_the_number(n: u32)
    ensures
        u32_le(n).len() == 4,
        number_of(u32_le(n)[0], u32_le(n)[1], u32_le(n)[2], u32_le(n)[3]) == n,
{
    le_u32_of_u32_le(n);
    reveal(u32_le);
    assert((n % 0x100) + (n / 0x100 % 0x100) * 0x100 + (n / 0x1_0000 % 0x100) * 0x1_0000 + (n
        / 0x100_0000) * 0x100_0000 == n) by (bit_vector);
    assert(n / 0x100_0000 < 0x100) by (bit_vector);
}

/// A message is the letters i3-ipc, the length of the text in bytes, the type, and the text in
/// UTF-8.
pub proof fn message_is_laid_out(message_type: u32, payload: &str, r: Vec<u8>)
    requires
        call_ensures(encode_message, (message_type, payload), r),
    ensures
        r@.len() == 14 + encode_utf8(payload@).len(),
        r@[0] == 'i' as u8 && r@[1] == '3' as u8 && r@[2] == '-' as u8,
        r@[3] == 'i' as u8 && r@[4] == 'p' as u8 && r@[5] == 'c' as u8,
        number_of(r@[6], r@[7], r@[8], r@[9]) == encode_utf8(payload@).len() % 0x1_0000_0000,
        number_of(r@[10], r@[11], r@[12], r@[13]) == message_type,
        r@.skip(14) == encode_utf8(payload@),
{
    let text = encode_utf8(payload@);
    let length = (text.len() % 0x1_0000_0000) as u32;
    bytes_make_the_number(length);
    bytes_make_the_number(message_type);
    let (l, t) = (u32_le(length), u32_le(message_type));
    assert(r@ == magic() + l + t + text);
    assert(r@[6] == l[0] && r@[7] == l[1] && r@[8] == l[2] && r@[9] == l[3]);
    assert(r@[10] == t[0] && r@[11] == t[1] && r@[12] == t[2] && r@[13] == t[3]);
    assert(r@.skip(14) =~= text);
}

/// An exchange starts with the message of its request, and expects a reply of the same type.
pub proof fn exchange_starts_with_its_request<T: Reply>(
    request: &Request<T>,
    r: (Exchange<T>, Vec<u8>),
    payload: &str,
    message: Vec<u8>,
)
    requires
        call_ensures(Exchange::<T>::start, (request,), r),
        call_ensures(encode_message, (request.message_type, payload), message),
        payload@ == request.payload@,
    ensures
        r.0.message_type == request.message_type,
        r.0.stage == Stage::Sending,
        r.1@ == message@,
{
}

/// Two requests that are sent in the same bytes are the same request.
pub proof fn requests_differ<T: Reply, U: Reply>(
    a: &Request<T>,
    b: &Request<U>,
    ra: (Exchange<T>, Vec<u8>),
    rb: (Exchange<U>, Vec<u8>),
)
    requires
        call_ensures(Exchange::<T>::start, (a,), ra),
        call_ensures(Exchange::<U>::start, (b,), rb),
        encode_utf8(a.payload@).len() < 0x1_0000_0000,
        encode_utf8(b.payload@).len() < 0x1_0000_0000,
        ra.1@ == rb.1@,
    ensures
        a.message_type == b.message_type,
        a.payload@ == b.payload@,
{
    frames_differ(a.message_type, a.payload@, b.message_type, b.payload@);
}

} // verus!
