use seal::channel::{
    awaited, classify_text, frame, open_channels, polled, received, received_after_wait, sent,
    unframe, wire, ChannelError, Polled, TextKind,
};
use seal::spawn::{
    check_options, check_sendbytes, choose_source, data_shape, encoding_for, join_outcome,
    kind_of_encoding, plan_spawn, DataShape, Encoding, JoinSlot, Program, SendBytesError,
    SendError, SpawnError, SpawnPlan, SpawnSource, ThreadError, ThreadHandle,
};
use seal::resolver::ResolutionError;
use seal::value::ValueKind;

#[test]
fn channels_have_their_capacities() {
    let pair = open_channels();
    assert_eq!(pair.parent.text_capacity(), Some(12));
    assert_eq!(pair.child.text_capacity(), Some(12));
    assert_eq!(pair.parent.bytes_capacity(), Some(24));
    assert_eq!(pair.child.bytes_capacity(), Some(24));
    assert_eq!(pair.parent.text_in.capacity(), Some(12));
    assert_eq!(pair.child.bytes_in.capacity(), Some(24));
}

#[test]
fn ping_pong_over_the_text_queues() {
    let pair = open_channels();
    assert_eq!(pair.parent.send(TextKind::Plain, "ping".to_string()), Ok(()));
    assert_eq!(pair.child.read_await(), Ok((TextKind::Plain, "ping".to_string())));
    assert_eq!(pair.child.send(TextKind::Plain, "pong".to_string()), Ok(()));
    assert_eq!(pair.parent.read_await(), Ok((TextKind::Plain, "pong".to_string())));
}

#[test]
fn messages_arrive_in_send_order() {
    let pair = open_channels();
    for i in 0..12 {
        assert_eq!(pair.parent.send(TextKind::Plain, format!("m{}", i)), Ok(()));
    }
    for i in 0..12 {
        assert_eq!(pair.child.read(), Some((TextKind::Plain, format!("m{}", i))));
    }
    assert_eq!(pair.child.read(), None);
}

#[test]
fn text_and_bytes_are_independent_queues() {
    let pair = open_channels();
    assert_eq!(pair.parent.sendbytes(vec![1, 2, 3]), Ok(()));
    assert_eq!(pair.child.read(), None);
    assert_eq!(pair.parent.send(TextKind::Plain, "t".to_string()), Ok(()));
    assert_eq!(pair.child.readbytes(), Some(vec![1, 2, 3]));
    assert_eq!(pair.child.readbytes(), None);
    assert_eq!(pair.child.read(), Some((TextKind::Plain, "t".to_string())));
    assert_eq!(pair.parent.read(), None);
    assert_eq!(pair.parent.readbytes(), None);
}

#[test]
fn a_full_queue_takes_no_more_until_one_message_is_drained() {
    let pair = open_channels();
    for i in 0..12 {
        assert_eq!(pair.parent.send(TextKind::Plain, format!("m{}", i)), Ok(()));
    }
    assert!(pair.parent.text_out.is_full());
    assert!(pair.parent.text_out.try_send("one too many".to_string()).is_err());
    assert_eq!(pair.child.read(), Some((TextKind::Plain, "m0".to_string())));
    assert!(!pair.parent.text_out.is_full());
    assert_eq!(pair.parent.send(TextKind::Plain, "fits now".to_string()), Ok(()));
    assert!(pair.parent.text_out.is_full());

    for i in 0..24u8 {
        assert_eq!(pair.child.sendbytes(vec![i]), Ok(()));
    }
    assert!(pair.child.bytes_out.try_send(vec![0]).is_err());
    assert_eq!(pair.parent.readbytes(), Some(vec![0]));
    assert_eq!(pair.child.sendbytes(vec![24]), Ok(()));
}

#[test]
fn reads_report_a_disconnect_only_when_they_wait() {
    let pair = open_channels();
    let parent = pair.parent;
    assert_eq!(pair.child.send(TextKind::Plain, "last words".to_string()), Ok(()));
    drop(pair.child);
    assert_eq!(parent.read_await(), Ok((TextKind::Plain, "last words".to_string())));
    assert_eq!(parent.read(), None);
    assert_eq!(parent.readbytes(), None);
    assert_eq!(parent.read_await(), Err(ChannelError::Disconnected));
    assert_eq!(parent.readbytes_await(), Err(ChannelError::Disconnected));
    assert_eq!(parent.send(TextKind::Plain, "anyone?".to_string()), Err(ChannelError::Disconnected));
    assert_eq!(parent.sendbytes(vec![1]), Err(ChannelError::Disconnected));
}

#[test]
fn structured_text_is_marked_by_the_sender() {
    let pair = open_channels();
    assert_eq!(pair.parent.send(TextKind::Structured, "{\"a\":1}".to_string()), Ok(()));
    assert_eq!(pair.child.read(), Some((TextKind::Structured, "{\"a\":1}".to_string())));
    assert_eq!(pair.parent.send(TextKind::Structured, "[1,2]".to_string()), Ok(()));
    assert_eq!(pair.child.read_await(), Ok((TextKind::Structured, "[1,2]".to_string())));
}

#[test]
fn a_string_reaches_the_reader_as_a_string_whatever_it_begins_with() {
    let pair = open_channels();
    for text in ["{x", "{\"a\":1}", "", "J", "T", "Jx", "TT", "plain", "{", "héllo"] {
        let kind = kind_of_encoding(encoding_for(&vec![ValueKind::Table, ValueKind::Text]).unwrap());
        assert_eq!(kind, TextKind::Plain);
        assert_eq!(pair.parent.send(kind, text.to_string()), Ok(()));
        assert_eq!(pair.child.read_await(), Ok((TextKind::Plain, text.to_string())));
    }
}

#[test]
fn framing_and_unframing() {
    assert_eq!(frame(TextKind::Plain, "{x"), "T{x");
    assert_eq!(frame(TextKind::Structured, "{}"), "J{}");
    assert_eq!(frame(TextKind::Plain, ""), "T");
    assert_eq!(unframe("T{x"), (TextKind::Plain, "{x".to_string()));
    assert_eq!(unframe("J{}"), (TextKind::Structured, "{}".to_string()));
    assert_eq!(unframe("TJ{}"), (TextKind::Plain, "J{}".to_string()));
    assert_eq!(unframe("J"), (TextKind::Structured, "".to_string()));
    assert_eq!(unframe(""), (TextKind::Plain, "".to_string()));
    assert_eq!(unframe("{x"), (TextKind::Plain, "{x".to_string()));
    assert_eq!(classify_text("J{}"), TextKind::Structured);
    assert_eq!(classify_text("{}"), TextKind::Plain);
    assert_eq!(classify_text("T"), TextKind::Plain);
    assert_eq!(classify_text(""), TextKind::Plain);
    assert_eq!(kind_of_encoding(Encoding::PassThrough), TextKind::Plain);
    assert_eq!(kind_of_encoding(Encoding::Encode), TextKind::Structured);
    for kind in [TextKind::Plain, TextKind::Structured] {
        for text in ["", "{", "J", "T", "any text"] {
            assert_eq!(unframe(&frame(kind, text)), (kind, text.to_string()));
        }
    }
}

#[test]
fn outcomes_of_channel_calls() {
    assert_eq!(sent::<String>(Ok(())), Ok(()));
    assert_eq!(sent(Err("back".to_string())), Err(ChannelError::Disconnected));
    assert_eq!(polled(Polled::Message(1)), Some(1));
    assert_eq!(polled::<i32>(Polled::Empty), None);
    assert_eq!(polled::<i32>(Polled::Disconnected), None);
    assert_eq!(awaited(Some(1)), Ok(1));
    assert_eq!(awaited::<i32>(None), Err(ChannelError::Disconnected));
}

#[test]
fn spawn_options_must_be_a_table() {
    assert_eq!(check_options(ValueKind::Table), Ok(()));
    assert_eq!(check_options(ValueKind::Text), Err(SpawnError::NotATable(ValueKind::Text)));
    assert_eq!(check_options(ValueKind::Nil), Err(SpawnError::NotATable(ValueKind::Nil)));
}

#[test]
fn spawn_source_prefers_inline_text() {
    assert_eq!(
        choose_source(Some("print(1)".to_string()), Some("./w.luau".to_string())),
        Ok(SpawnSource::Inline("print(1)".to_string()))
    );
    assert_eq!(
        choose_source(None, Some("./w.luau".to_string())),
        Ok(SpawnSource::Path("./w.luau".to_string()))
    );
    assert_eq!(choose_source(None, None), Err(SpawnError::MissingSource));
}

#[test]
fn spawn_path_is_resolved_against_the_spawning_script() {
    assert_eq!(
        plan_spawn(SpawnSource::Path("./workers/w.luau".to_string()), "app/main.luau"),
        Ok(SpawnPlan {
            program: Program::File("app/workers/w.luau".to_string()),
            child_path: "app/workers/w.luau".to_string(),
            parent_path: "app/main.luau".to_string(),
        })
    );
    assert_eq!(
        plan_spawn(SpawnSource::Path("../w.luau".to_string()), "app/sub/main.luau"),
        Ok(SpawnPlan {
            program: Program::File("app/w.luau".to_string()),
            child_path: "app/w.luau".to_string(),
            parent_path: "app/sub/main.luau".to_string(),
        })
    );
}

#[test]
fn spawn_of_inline_text_has_no_path_of_its_own() {
    assert_eq!(
        plan_spawn(SpawnSource::Inline("print(1)".to_string()), "app/main.luau"),
        Ok(SpawnPlan {
            program: Program::Text("print(1)".to_string()),
            child_path: "".to_string(),
            parent_path: "app/main.luau".to_string(),
        })
    );
}

#[test]
fn spawn_path_that_does_not_resolve_is_refused() {
    assert_eq!(
        plan_spawn(SpawnSource::Path("w.luau".to_string()), "app/main.luau"),
        Err(SpawnError::Resolution(ResolutionError::MalformedPath("w.luau".to_string())))
    );
    assert_eq!(
        plan_spawn(SpawnSource::Path("./w.luau".to_string()), ""),
        Err(SpawnError::Resolution(ResolutionError::MalformedPath("".to_string())))
    );
}

#[test]
fn initial_data_shapes() {
    assert_eq!(data_shape(Some(ValueKind::Table)), DataShape::Structured);
    assert_eq!(data_shape(Some(ValueKind::Buffer)), DataShape::Bytes);
    assert_eq!(data_shape(Some(ValueKind::Text)), DataShape::Absent);
    assert_eq!(data_shape(Some(ValueKind::Nil)), DataShape::Absent);
    assert_eq!(data_shape(None), DataShape::Absent);
}

#[test]
fn text_send_takes_text_and_tables() {
    assert_eq!(encoding_for(&vec![ValueKind::Table, ValueKind::Text]), Ok(Encoding::PassThrough));
    assert_eq!(encoding_for(&vec![ValueKind::Table, ValueKind::Table]), Ok(Encoding::Encode));
    assert_eq!(encoding_for(&vec![ValueKind::Text]), Ok(Encoding::PassThrough));
    assert_eq!(
        encoding_for(&vec![ValueKind::Table, ValueKind::Integer]),
        Err(SendError::NotSendable(ValueKind::Integer))
    );
    assert_eq!(encoding_for(&vec![]), Err(SendError::Nothing));
}

#[test]
fn byte_send_takes_a_handle_and_a_buffer() {
    assert_eq!(check_sendbytes(&vec![ValueKind::Table, ValueKind::Buffer]), Ok(()));
    assert_eq!(check_sendbytes(&vec![]), Err(SendBytesError::CalledWithNothing));
    assert_eq!(check_sendbytes(&vec![ValueKind::Buffer]), Err(SendBytesError::HandleIsBuffer));
    assert_eq!(
        check_sendbytes(&vec![ValueKind::Text, ValueKind::Buffer]),
        Err(SendBytesError::HandleNotTable(ValueKind::Text))
    );
    assert_eq!(check_sendbytes(&vec![ValueKind::Table]), Err(SendBytesError::NoBuffer));
    assert_eq!(
        check_sendbytes(&vec![ValueKind::Table, ValueKind::Text]),
        Err(SendBytesError::NotABuffer(ValueKind::Text))
    );
    assert_eq!(
        check_sendbytes(&vec![ValueKind::Table, ValueKind::Nil, ValueKind::Buffer]),
        Ok(())
    );
}

#[test]
fn join_slot_gives_its_handle_once() {
    let mut slot = JoinSlot::new(7u32);
    assert!(!slot.is_taken());
    assert_eq!(slot.take(), Some(7));
    assert!(slot.is_taken());
    assert_eq!(slot.take(), None);
    assert_eq!(slot.take(), None);
}

#[test]
fn second_join_returns_at_once_without_error() {
    let pair = open_channels();
    let mut handle = ThreadHandle::new("the thread", pair.parent);
    let first = handle.begin_join();
    assert_eq!(first, Some("the thread"));
    assert_eq!(join_outcome(first.map(|_| true)), Ok(()));
    let second = handle.begin_join();
    assert_eq!(second, None);
    assert_eq!(join_outcome(second.map(|_| true)), Ok(()));
}

#[test]
fn join_outcomes() {
    assert_eq!(join_outcome(None), Ok(()));
    assert_eq!(join_outcome(Some(true)), Ok(()));
    assert_eq!(join_outcome(Some(false)), Err(ThreadError::ChildPanicked));
}

#[test]
fn wiring_joins_each_sending_end_to_the_other_side() {
    let pair = wire(
        crossbeam_channel::bounded(1),
        crossbeam_channel::bounded(2),
        crossbeam_channel::bounded(3),
        crossbeam_channel::bounded(4),
    );
    assert_eq!(pair.parent.text_out.capacity(), Some(1));
    assert_eq!(pair.child.text_in.capacity(), Some(1));
    assert_eq!(pair.child.text_out.capacity(), Some(2));
    assert_eq!(pair.parent.text_in.capacity(), Some(2));
    assert_eq!(pair.parent.bytes_out.capacity(), Some(3));
    assert_eq!(pair.child.bytes_in.capacity(), Some(3));
    assert_eq!(pair.child.bytes_out.capacity(), Some(4));
    assert_eq!(pair.parent.bytes_in.capacity(), Some(4));
    assert!(pair.parent.text_out.same_channel(&pair.parent.text_out.clone()));
    assert_eq!(pair.parent.send(TextKind::Plain, "down".to_string()), Ok(()));
    assert_eq!(pair.parent.read(), None);
    assert_eq!(pair.child.read(), Some((TextKind::Plain, "down".to_string())));
    assert_eq!(pair.child.send(TextKind::Structured, "[1]".to_string()), Ok(()));
    assert_eq!(pair.child.read(), None);
    assert_eq!(pair.parent.read(), Some((TextKind::Structured, "[1]".to_string())));
    assert_eq!(pair.parent.sendbytes(vec![7]), Ok(()));
    assert_eq!(pair.parent.readbytes(), None);
    assert_eq!(pair.child.readbytes(), Some(vec![7]));
    assert_eq!(pair.child.sendbytes(vec![8, 9]), Ok(()));
    assert_eq!(pair.child.readbytes(), None);
    assert_eq!(pair.parent.readbytes(), Some(vec![8, 9]));
}

#[test]
fn what_was_found_in_a_queue_is_handed_on_by_its_mark() {
    assert_eq!(
        received(Polled::Message(frame(TextKind::Plain, "{x"))),
        Some((TextKind::Plain, "{x".to_string()))
    );
    assert_eq!(
        received(Polled::Message(frame(TextKind::Structured, "{\"a\":1}"))),
        Some((TextKind::Structured, "{\"a\":1}".to_string()))
    );
    assert_eq!(received(Polled::Message(String::new())), Some(unframe("")));
    assert_eq!(received(Polled::Empty), None);
    assert_eq!(received(Polled::Disconnected), None);
}

#[test]
fn what_a_wait_brought_is_handed_on_by_its_mark() {
    assert_eq!(
        received_after_wait(Some(frame(TextKind::Plain, "[1]"))),
        Ok((TextKind::Plain, "[1]".to_string()))
    );
    assert_eq!(
        received_after_wait(Some(frame(TextKind::Structured, "[1]"))),
        Ok((TextKind::Structured, "[1]".to_string()))
    );
    assert_eq!(received_after_wait(None), Err(ChannelError::Disconnected));
}
