//! The state of the services and the stored records behind one lock, for a
//! program that reads the network on one thread and handles lines on
//! another.
//!
//! A line is handled under the lock from beginning to end, so the handling
//! of two lines never interleaves. What the lock hands out is well formed,
//! and has to be well formed again when it is given back.

use vstd::prelude::*;
use vstd::rwlock::{RwLock, RwLockPredicate};
use crate::config::Config;
use crate::data::state::{forgotten, State};
use crate::data::store::Store;
use crate::func::{came_to, process, process_fits, process_step, Outcome};
use crate::text::texts;
use crate::wire::{Record, RecordView};

verus! {

/// The state of the services together with the stored records.
pub struct World {
    pub state: State,
    pub store: Store,
}

impl World {
    /// Both the state and the stored records are well formed.
    pub open spec fn wf(&self) -> bool {
        self.state.wf() && self.store.wf()
    }

    /// Takes back what a handler noted when it expected `record` to be
    /// written: `store`, the records as they were read anew, takes the
    /// place of the stored records, and a user who was to be registered is
    /// no longer identified.
    pub fn write_failed(&mut self, record: &Record, store: Store)
        requires
            old(self).wf(),
            store.wf(),
        ensures
            final(self).wf(),
            final(self).store == store,
            final(self).state.resistance == old(self).state.resistance,
            final(self).state.democracy == old(self).state.democracy,
            final(self).state@.identified == match record@ {
                RecordView::User(u) => forgotten(old(self).state@.identified, u.nickname),
                _ => old(self).state@.identified,
            },
            record@ matches RecordView::User(u) ==> !final(self).state@.identified.contains(
                u.nickname,
            ),
            forall|other: Seq<char>|
                !(record@ matches RecordView::User(u) && u.nickname == other) ==> (
                #[trigger] final(self).state@.identified.contains(other) == old(
                    self,
                ).state@.identified.contains(other)),
    {
        self.store = store;
        match record {
            Record::User(user) => {
                self.state.remove(user.nickname.as_str());
            },
            _ => {},
        }
    }
}

/// What the lock keeps: a world that is well formed.
pub struct Sound;

impl RwLockPredicate<World> for Sound {
    open spec fn inv(self, w: World) -> bool {
        w.wf()
    }
}

/// A world that several threads may share.
pub struct Shared {
    world: RwLock<World, Sound>,
}

impl Shared {
    /// Puts a state and the stored records behind a lock.
    pub fn new(state: State, store: Store) -> (s: Shared)
        requires
            state.wf(),
            store.wf(),
    {
        Shared { world: RwLock::new(World { state, store }, Ghost(Sound)) }
    }

    /// Handles a line from the network under the lock. The line is handled
    /// as `process` handles it, against the world as it stands when the
    /// lock is taken; what that world is depends on the lines that other
    /// threads had handled before.
    pub fn process(&self, config: &Config, source: &str, command: &str, args: &Vec<String>) -> (r:
        Outcome)
        ensures
            exists|before: World, after: World, order: Seq<Seq<char>>| #[trigger]
                handles(before, after, r, *config, source@, command@, texts(args@), order),
    {
        let (world, handle) = self.world.acquire_write();
        let mut world = world;
        let ghost before = world;
        let r = process(&mut world.state, &mut world.store, config, source, command, args);
        proof {
            let after = world;
            let order = choose|order: Seq<Seq<char>>|
                {
                    &&& process_fits(before.state@.games, command@, texts(args@), order)
                    &&& came_to(
                        &after.state,
                        &after.store,
                        r,
                        before.state@,
                        before.store@,
                        #[trigger] process_step(
                            before.state@,
                            before.store@,
                            config.nickname@,
                            texts(config.owners@),
                            config.oper_pass@,
                            source@,
                            command@,
                            texts(args@),
                            order,
                        ),
                    )
                };
            assert(handles(before, after, r, *config, source@, command@, texts(args@), order));
        }
        handle.release_write(world);
        r
    }

    /// Takes note that a record could not be written, under the lock; see
    /// `World::write_failed`.
    pub fn write_failed(&self, record: &Record, store: Store)
        requires
            store.wf(),
    {
        let (world, handle) = self.world.acquire_write();
        let mut world = world;
        world.write_failed(record, store);
        handle.release_write(world);
    }
}

/// Whether `r` is what handling a line comes to, the world being `before`
/// when the line is taken up and `after` when it is done, with `order` as
/// the shuffle for the game.
pub open spec fn handles(
    before: World,
    after: World,
    r: Outcome,
    config: Config,
    source: Seq<char>,
    command: Seq<char>,
    args: Seq<Seq<char>>,
    order: Seq<Seq<char>>,
) -> bool {
    &&& before.wf()
    &&& after.wf()
    &&& process_fits(before.state@.games, command, args, order)
    &&& came_to(
        &after.state,
        &after.store,
        r,
        before.state@,
        before.store@,
        process_step(
            before.state@,
            before.store@,
            config.nickname@,
            texts(config.owners@),
            config.oper_pass@,
            source,
            command,
            args,
            order,
        ),
    )
}

} // verus!
