//! The commands that wait for the sync loop, and whether it is running.
use crate::settings::LiveSettings;
use crate::web::ControlCommand;
use vstd::prelude::*;

verus! {

/// Whether colours are being sent.
#[derive(Debug, Clone, Copy, PartialEq, Eq, Structural)]
pub enum PipelineState {
    Running,
    Paused,
}

/// The commands that came in since the sync loop last looked, as far as they
/// still matter.
#[derive(Debug, Clone, Copy)]
pub struct PendingCommands {
    /// What the latest request to start or stop asked for.
    pub desired_running: Option<bool>,
    /// The latest settings to apply.
    pub apply_settings: Option<LiveSettings>,
    pub save_config: bool,
    pub sync_bridge: bool,
    pub reconfigure: bool,
    pub restart: bool,
}

/// No command waits.
pub open spec fn nothing_pending() -> PendingCommands {
    PendingCommands {
        desired_running: None,
        apply_settings: None,
        save_config: false,
        sync_bridge: false,
        reconfigure: false,
        restart: false,
    }
}

/// What waits once `command` has come in as well.
pub open spec fn noted(pending: PendingCommands, command: ControlCommand) -> PendingCommands {
    match command {
        ControlCommand::Start => PendingCommands { desired_running: Some(true), ..pending },
        ControlCommand::Stop => PendingCommands { desired_running: Some(false), ..pending },
        ControlCommand::Restart => PendingCommands { restart: true, ..pending },
        ControlCommand::Reconfigure => PendingCommands { reconfigure: true, ..pending },
        ControlCommand::SyncBridge => PendingCommands { sync_bridge: true, ..pending },
        ControlCommand::SaveConfig => PendingCommands { save_config: true, ..pending },
        ControlCommand::ApplySettings(settings) => PendingCommands {
            apply_settings: Some(settings),
            ..pending
        },
    }
}

/// What waits once all `commands` have come in as well, in order.
pub open spec fn received(pending: PendingCommands, commands: Seq<ControlCommand>) -> PendingCommands
    decreases commands.len(),
{
    if commands.len() == 0 {
        pending
    } else {
        noted(received(pending, commands.drop_last()), commands.last())
    }
}

impl Default for PendingCommands {
    fn default() -> (pending: Self)
        ensures
            pending == nothing_pending(),
    {
        PendingCommands {
            desired_running: None,
            apply_settings: None,
            save_config: false,
            sync_bridge: false,
            reconfigure: false,
            restart: false,
        }
    }
}

impl PendingCommands {
    /// What waits when the loop begins: a loop that should not run yet is told
    /// to stop.
    pub fn at_start(should_run: bool) -> (pending: Self)
        ensures
            pending == (PendingCommands {
                desired_running: if should_run {
                    None
                } else {
                    Some(false)
                },
                ..nothing_pending()
            }),
    {
        let mut pending = PendingCommands::default();
        if !should_run {
            pending.desired_running = Some(false);
        }
        pending
    }

    /// Takes in the commands that have arrived, oldest first.
    pub fn receive(&mut self, commands: &[ControlCommand])
        ensures
            *final(self) == received(*old(self), commands@),
    {
        let ghost before = *self;
        proof {
            assert(commands@.take(0) =~= Seq::<ControlCommand>::empty());
        }
        for i in 0..commands.len()
            invariant
                *self == received(before, commands@.take(i as int)),
        {
            proof {
                let more = commands@.take(i + 1);
                assert(more.drop_last() =~= commands@.take(i as int));
                assert(more.last() == commands@[i as int]);
            }
            match commands[i] {
                ControlCommand::Start => {
                    self.desired_running = Some(true);
                },
                ControlCommand::Stop => {
                    self.desired_running = Some(false);
                },
                ControlCommand::Restart => {
                    self.restart = true;
                },
                ControlCommand::Reconfigure => {
                    self.reconfigure = true;
                },
                ControlCommand::SyncBridge => {
                    self.sync_bridge = true;
                },
                ControlCommand::SaveConfig => {
                    self.save_config = true;
                },
                ControlCommand::ApplySettings(settings) => {
                    self.apply_settings = Some(settings);
                },
            }
        }
        proof {
            assert(commands@.take(commands@.len() as int) =~= commands@);
        }
    }

    /// Whether the latest request asked to run (`true`) or to stop (`false`);
    /// either way it is dealt with now.
    pub fn take_request(&mut self, run: bool) -> (asked: bool)
        ensures
            asked == (old(self).desired_running == Some(run)),
            *final(self) == (PendingCommands { desired_running: None, ..*old(self) }),
    {
        let asked = match self.desired_running {
            Some(wanted) => wanted == run,
            None => false,
        };
        self.desired_running = None;
        asked
    }

    /// The settings to apply, if any are waiting.
    pub fn take_settings(&mut self) -> (settings: Option<LiveSettings>)
        ensures
            settings == old(self).apply_settings,
            *final(self) == (PendingCommands { apply_settings: None, ..*old(self) }),
    {
        let settings = self.apply_settings;
        self.apply_settings = None;
        settings
    }

    pub fn take_save_config(&mut self) -> (asked: bool)
        ensures
            asked == old(self).save_config,
            *final(self) == (PendingCommands { save_config: false, ..*old(self) }),
    {
        let asked = self.save_config;
        self.save_config = false;
        asked
    }

    pub fn take_sync_bridge(&mut self) -> (asked: bool)
        ensures
            asked == old(self).sync_bridge,
            *final(self) == (PendingCommands { sync_bridge: false, ..*old(self) }),
    {
        let asked = self.sync_bridge;
        self.sync_bridge = false;
        asked
    }

    pub fn take_reconfigure(&mut self) -> (asked: bool)
        ensures
            asked == old(self).reconfigure,
            *final(self) == (PendingCommands { reconfigure: false, ..*old(self) }),
    {
        let asked = self.reconfigure;
        self.reconfigure = false;
        asked
    }

    pub fn take_restart(&mut self) -> (asked: bool)
        ensures
            asked == old(self).restart,
            *final(self) == (PendingCommands { restart: false, ..*old(self) }),
    {
        let asked = self.restart;
        self.restart = false;
        asked
    }
}

/// Of several requests to start or stop, the last one counts.
pub proof fn last_run_request_wins(
    pending: PendingCommands,
    before: Seq<ControlCommand>,
    run: bool,
    after: Seq<ControlCommand>,
)
    requires
        forall|i: int|
            0 <= i < after.len() ==> !(#[trigger] after[i] is Start) && !(after[i] is Stop),
    ensures
        ({
            let request = if run {
                ControlCommand::Start
            } else {
                ControlCommand::Stop
            };
            received(pending, before.push(request) + after).desired_running == Some(run)
        }),
    decreases after.len(),
{
    let request = if run {
        ControlCommand::Start
    } else {
        ControlCommand::Stop
    };
    let all = before.push(request) + after;
    if after.len() == 0 {
        assert(all.drop_last() =~= before);
        assert(all.last() == request);
    } else {
        last_run_request_wins(pending, before, run, after.drop_last());
        assert(all.drop_last() =~= before.push(request) + after.drop_last());
        assert(all.last() == after.last());
        assert(after.last() == after[after.len() - 1]);
    }
}

/// Of several settings, the last ones are applied.
pub proof fn last_settings_win(
    pending: PendingCommands,
    before: Seq<ControlCommand>,
    settings: LiveSettings,
    after: Seq<ControlCommand>,
)
    requires
        forall|i: int| 0 <= i < after.len() ==> !(#[trigger] after[i] is ApplySettings),
    ensures
        received(
            pending,
            before.push(ControlCommand::ApplySettings(settings)) + after,
        ).apply_settings == Some(settings),
    decreases after.len(),
{
    let request = ControlCommand::ApplySettings(settings);
    let all = before.push(request) + after;
    if after.len() == 0 {
        assert(all.drop_last() =~= before);
        assert(all.last() == request);
    } else {
        last_settings_win(pending, before, settings, after.drop_last());
        assert(all.drop_last() =~= before.push(request) + after.drop_last());
        assert(all.last() == after.last());
        assert(after.last() == after[after.len() - 1]);
    }
}

/// No other command is lost: it waits if and only if it waited before or came
/// in.
pub proof fn other_commands_are_kept(pending: PendingCommands, commands: Seq<ControlCommand>)
    ensures
        ({
            let after = received(pending, commands);
            &&& after.save_config == (pending.save_config || commands.contains(
                ControlCommand::SaveConfig,
            ))
            &&& after.sync_bridge == (pending.sync_bridge || commands.contains(
                ControlCommand::SyncBridge,
            ))
            &&& after.reconfigure == (pending.reconfigure || commands.contains(
                ControlCommand::Reconfigure,
            ))
            &&& after.restart == (pending.restart || commands.contains(ControlCommand::Restart))
        }),
    decreases commands.len(),
{
    if commands.len() > 0 {
        let first = commands.drop_last();
        other_commands_are_kept(pending, first);
        assert(commands =~= first.push(commands.last()));
        assert forall|command: ControlCommand| #[trigger]
            commands.contains(command) == (first.contains(command) || commands.last()
                == command) by {
            if first.contains(command) {
                let i = choose|i: int| 0 <= i < first.len() && first[i] == command;
                assert(commands[i] == command);
            }
            if commands.last() == command {
                assert(commands[commands.len() - 1] == command);
            }
            if commands.contains(command) {
                let i = choose|i: int| 0 <= i < commands.len() && commands[i] == command;
                if i < first.len() {
                    assert(first[i] == command);
                }
            }
        }
    }
}

/// What came in is what waits: each flag for its own command, the last request to
/// start or stop, the last settings.
pub proof fn each_command_waits_as_itself(
    pending: &mut PendingCommands,
    commands: &[ControlCommand],
    at: int,
)
    requires
        call_ensures(PendingCommands::receive, (pending, commands), ()),
    ensures
        final(pending).save_config == (old(pending).save_config || commands@.contains(
            ControlCommand::SaveConfig,
        )),
        final(pending).sync_bridge == (old(pending).sync_bridge || commands@.contains(
            ControlCommand::SyncBridge,
        )),
        final(pending).reconfigure == (old(pending).reconfigure || commands@.contains(
            ControlCommand::Reconfigure,
        )),
        final(pending).restart == (old(pending).restart || commands@.contains(
            ControlCommand::Restart,
        )),
        0 <= at < commands@.len() && commands@[at] is Start && (forall|i: int|
            at < i < commands@.len() ==> !(#[trigger] commands@[i] is Start) && !(
            commands@[i] is Stop)) ==> final(pending).desired_running == Some(true),
        0 <= at < commands@.len() && commands@[at] is Stop && (forall|i: int|
            at < i < commands@.len() ==> !(#[trigger] commands@[i] is Start) && !(
            commands@[i] is Stop)) ==> final(pending).desired_running == Some(false),
        0 <= at < commands@.len() && (forall|i: int|
            at < i < commands@.len() ==> !(#[trigger] commands@[i] is ApplySettings)) ==> (
        commands@[at] matches ControlCommand::ApplySettings(settings)
            ==> final(pending).apply_settings == Some(settings)),
        (forall|i: int|
            0 <= i < commands@.len() ==> !(#[trigger] commands@[i] is Start) && !(
            commands@[i] is Stop)) ==> final(pending).desired_running == old(
            pending,
        ).desired_running,
        (forall|i: int| 0 <= i < commands@.len() ==> !(#[trigger] commands@[i] is ApplySettings))
            ==> final(pending).apply_settings == old(pending).apply_settings,
{
    let before = *old(pending);
    other_commands_are_kept(before, commands@);
    if 0 <= at < commands@.len() {
        let head = commands@.take(at);
        let tail = commands@.skip(at + 1);
        assert(commands@ =~= head.push(commands@[at]) + tail);
        assert forall|i: int| 0 <= i < tail.len() implies #[trigger] tail[i] == commands@[at + 1
            + i] by {}
        if forall|i: int|
            at < i < commands@.len() ==> !(#[trigger] commands@[i] is Start) && !(
            commands@[i] is Stop) {
            if commands@[at] is Start {
                last_run_request_wins(before, head, true, tail);
            } else if commands@[at] is Stop {
                last_run_request_wins(before, head, false, tail);
            }
        }
        if forall|i: int| at < i < commands@.len() ==> !(#[trigger] commands@[i] is ApplySettings) {
            if let ControlCommand::ApplySettings(settings) = commands@[at] {
                last_settings_win(before, head, settings, tail);
            }
        }
    }
    lemma_unasked_stays(before, commands@);
}

proof fn lemma_unasked_stays(pending: PendingCommands, commands: Seq<ControlCommand>)
    ensures
        (forall|i: int|
            0 <= i < commands.len() ==> !(#[trigger] commands[i] is Start) && !(
            commands[i] is Stop)) ==> received(pending, commands).desired_running
            == pending.desired_running,
        (forall|i: int| 0 <= i < commands.len() ==> !(#[trigger] commands[i] is ApplySettings))
            ==> received(pending, commands).apply_settings == pending.apply_settings,
    decreases commands.len(),
{
    if commands.len() > 0 {
        let first = commands.drop_last();
        lemma_unasked_stays(pending, first);
        assert forall|i: int| 0 <= i < first.len() implies #[trigger] first[i] == commands[i] by {}
        assert(commands.last() == commands[commands.len() - 1]);
    }
}

/// The latest request is answered only with what it asked for, and is gone then,
/// whichever was looked for; nothing else is touched.
pub proof fn a_request_is_dealt_with_once(
    pending: &mut PendingCommands,
    run: bool,
    asked: bool,
)
    requires
        call_ensures(PendingCommands::take_request, (pending, run), asked),
    ensures
        asked ==> old(pending).desired_running == Some(run),
        old(pending).desired_running == Some(run) ==> asked,
        final(pending).desired_running is None,
        final(pending).apply_settings == old(pending).apply_settings,
        final(pending).save_config == old(pending).save_config,
        final(pending).sync_bridge == old(pending).sync_bridge,
        final(pending).reconfigure == old(pending).reconfigure,
        final(pending).restart == old(pending).restart,
{
}

/// The settings that wait come out as they are, and are gone then; nothing else is
/// touched.
pub proof fn settings_are_applied_once(
    pending: &mut PendingCommands,
    settings: Option<LiveSettings>,
)
    requires
        call_ensures(PendingCommands::take_settings, (pending,), settings),
    ensures
        settings == old(pending).apply_settings,
        final(pending).apply_settings is None,
        final(pending).desired_running == old(pending).desired_running,
        final(pending).save_config == old(pending).save_config,
        final(pending).sync_bridge == old(pending).sync_bridge,
        final(pending).reconfigure == old(pending).reconfigure,
        final(pending).restart == old(pending).restart,
{
}

/// Each question takes its own command and leaves the others to theirs.
pub proof fn each_question_takes_its_own_command(
    saving: &mut PendingCommands,
    syncing: &mut PendingCommands,
    changing: &mut PendingCommands,
    starting: &mut PendingCommands,
    save: bool,
    bridge: bool,
    reconfigure: bool,
    restart: bool,
)
    requires
        call_ensures(PendingCommands::take_save_config, (saving,), save),
        call_ensures(PendingCommands::take_sync_bridge, (syncing,), bridge),
        call_ensures(PendingCommands::take_reconfigure, (changing,), reconfigure),
        call_ensures(PendingCommands::take_restart, (starting,), restart),
    ensures
        save == old(saving).save_config,
        !final(saving).save_config,
        (PendingCommands { save_config: save, ..*final(saving) }) == *old(saving),
        bridge == old(syncing).sync_bridge,
        !final(syncing).sync_bridge,
        (PendingCommands { sync_bridge: bridge, ..*final(syncing) }) == *old(syncing),
        reconfigure == old(changing).reconfigure,
        !final(changing).reconfigure,
        (PendingCommands { reconfigure, ..*final(changing) }) == *old(changing),
        restart == old(starting).restart,
        !final(starting).restart,
        (PendingCommands { restart, ..*final(starting) }) == *old(starting),
{
}

/// A loop that should run begins with nothing waiting; one that should not, with the
/// request to stop and nothing else.
pub proof fn a_loop_begins_as_it_should(should_run: bool, pending: PendingCommands)
    requires
        call_ensures(PendingCommands::at_start, (should_run,), pending),
    ensures
        pending.desired_running is Some <==> !should_run,
        pending.desired_running != Some(true),
        pending.apply_settings is None,
        !pending.save_config && !pending.sync_bridge,
        !pending.reconfigure && !pending.restart,
{
}

} // verus!
