//! The game: the sequencer of upcoming pieces, the field with its falling
//! piece, and the state that a front end drives with messages.

use vstd::prelude::*;

use std::collections::VecDeque;

use rand::rngs::ThreadRng;
use rand::seq::SliceRandom;

use crate::game_handler::{Message, Movement};
use crate::matrix::{all_empty, stamp, Matrix, MatrixView, MinoGrid, MATRIX_HEIGHT, MATRIX_WIDTH};
use crate::tetramino::{
    all_kinds, can_move, kick_index, kicked, kinds_in_order, moved, piece_minos, spawned, Facing,
    Tetrimino, TetriminoType, TetriminoView,
};

verus! {

#[verifier::external_type_specification]
#[verifier::external_body]
pub struct ExThreadRng(ThreadRng);

/// Relies on `rand::thread_rng`: a handle on the thread's generator, seeded
/// by the operating system. Nothing is promised of it.
#[verifier::external_body]
fn new_rng() -> ThreadRng {
    rand::thread_rng()
}

/// Relies on `rand::seq::SliceRandom::shuffle`: the same kinds, in an order
/// drawn from `rng`.
#[verifier::external_body]
fn shuffle(bag: &mut Vec<TetriminoType>, rng: &mut ThreadRng)
    ensures
        final(bag)@.to_multiset() == old(bag)@.to_multiset(),
{
    bag.shuffle(rng);
}

/// A permutation of the seven kinds.
pub open spec fn is_full_bag(s: Seq<TetriminoType>) -> bool {
    s.to_multiset() == kinds_in_order().to_multiset()
}

/// The `b`-th group of seven among the kinds dealt.
pub open spec fn bag_at(dealt: Seq<TetriminoType>, b: int) -> Seq<TetriminoType> {
    dealt.subrange(7 * b, 7 * b + 7)
}

/// The kinds dealt from the bag now in use.
pub open spec fn pending(dealt: Seq<TetriminoType>) -> Seq<TetriminoType> {
    dealt.subrange(dealt.len() - dealt.len() % 7, dealt.len() as int)
}

/// Every complete group of seven dealt kinds is a permutation of the seven
/// kinds, and the bag holds exactly the kinds that its group still lacks.
pub open spec fn bags_ok(dealt: Seq<TetriminoType>, bag: Seq<TetriminoType>) -> bool {
    &&& forall|b: int| 0 <= b < dealt.len() / 7 ==> is_full_bag(#[trigger] bag_at(dealt, b))
    &&& if bag.len() == 0 {
        dealt.len() % 7 == 0
    } else {
        is_full_bag(pending(dealt) + bag)
    }
}

/// What a [`NextQueue`] holds: the look-ahead window (front first), the bag,
/// and every kind dealt from the bag since the queue was made.
pub struct NextQueueView {
    pub queue: Seq<TetriminoType>,
    pub bag: Seq<TetriminoType>,
    pub dealt: Seq<TetriminoType>,
}

/// The kinds handed out by [`NextQueue::next`] so far, in order: all dealt
/// kinds but the six still waiting in the window.
pub open spec fn drawn(v: NextQueueView) -> Seq<TetriminoType> {
    v.dealt.subrange(0, v.dealt.len() - 6)
}

/// A `NextQueue` is a self-filling sequence of pieces: a window of the next
/// six kinds, fed from a bag that holds each kind once per shuffle.
pub struct NextQueue {
    queue: VecDeque<TetriminoType>,
    bag: Vec<TetriminoType>,
    rng: ThreadRng,
    dealt: Ghost<Seq<TetriminoType>>,
}

impl View for NextQueue {
    type V = NextQueueView;

    closed spec fn view(&self) -> NextQueueView {
        NextQueueView { queue: self.queue@, bag: self.bag@, dealt: self.dealt@ }
    }
}

/// Dealing the last kind of a bag that completes its group keeps
/// [`bags_ok`].
proof fn lemma_deal(dealt: Seq<TetriminoType>, bag: Seq<TetriminoType>)
    requires
        bag.len() > 0,
        forall|b: int| 0 <= b < dealt.len() / 7 ==> is_full_bag(#[trigger] bag_at(dealt, b)),
        is_full_bag(pending(dealt) + bag),
    ensures
        bags_ok(dealt.push(bag.last()), bag.drop_last()),
{
    broadcast use vstd::seq_lib::group_to_multiset_ensures;

    let x = bag.last();
    let rest = bag.drop_last();
    let p = pending(dealt);
    let d = dealt.push(x);
    let n = dealt.len();
    vstd::seq_lib::lemma_multiset_commutative(p, bag);
    assert(kinds_in_order().to_multiset().len() == 7);
    assert(p.len() + bag.len() == 7);
    assert(bag =~= rest.push(x));
    assert forall|b: int| 0 <= b < n / 7 implies is_full_bag(#[trigger] bag_at(d, b)) by {
        assert(bag_at(d, b) =~= bag_at(dealt, b));
    }
    if rest.len() == 0 {
        assert(p.len() == 6);
        assert(bag_at(d, (n / 7) as int) =~= p + bag);
        assert forall|b: int| 0 <= b < d.len() / 7 implies is_full_bag(#[trigger] bag_at(d, b)) by {
            if b < n / 7 {
                assert(bag_at(d, b) =~= bag_at(dealt, b));
            }
        }
    } else {
        assert(pending(d) =~= p.push(x));
        vstd::seq_lib::lemma_multiset_commutative(p.push(x), rest);
        vstd::seq_lib::lemma_multiset_commutative(p, rest);
        assert((pending(d) + rest).to_multiset() =~= (p + bag).to_multiset());
    }
}

impl NextQueue {
    /// The window holds the last six kinds dealt, and [`bags_ok`] holds.
    pub open spec fn wf(&self) -> bool {
        &&& self@.dealt.len() >= 6
        &&& self@.queue == self@.dealt.subrange(self@.dealt.len() - 6, self@.dealt.len() as int)
        &&& bags_ok(self@.dealt, self@.bag)
    }

    /// The look-ahead window, front first.
    pub fn get_queue(&self) -> (r: Vec<TetriminoType>)
        ensures
            r@ == self@.queue,
    {
        let mut out: Vec<TetriminoType> = Vec::new();
        let mut i: usize = 0;
        while i < self.queue.len()
            invariant
                i <= self.queue@.len(),
                out@ == self.queue@.subrange(0, i as int),
            decreases self.queue@.len() - i,
        {
            out.push(self.queue[i]);
            proof {
                assert(out@ =~= self.queue@.subrange(0, i + 1));
            }
            i += 1;
        }
        proof {
            assert(out@ =~= self.queue@);
        }
        out
    }

    /// Takes one kind from the bag, refilling it with all seven kinds in a
    /// random order when it is empty.
    fn next_bag(&mut self) -> (r: TetriminoType)
        requires
            bags_ok(old(self)@.dealt, old(self)@.bag),
        ensures
            final(self)@.queue == old(self)@.queue,
            final(self)@.dealt == old(self)@.dealt.push(r),
            bags_ok(final(self)@.dealt, final(self)@.bag),
    {
        // fill and shuffle if empty
        if self.bag.len() == 0 {
            self.bag = all_kinds();
            shuffle(&mut self.bag, &mut self.rng);
            proof {
                let d = self.dealt@;
                assert(pending(d) =~= Seq::<TetriminoType>::empty());
                assert(pending(d) + self.bag@ =~= self.bag@);
                vstd::seq_lib::to_multiset_len(self.bag@);
                vstd::seq_lib::to_multiset_len(kinds_in_order());
            }
        }
        proof {
            lemma_deal(self.dealt@, self.bag@);
        }
        // bag is fed back to front but that order doesn't matter
        let r = match self.bag.pop() {
            Some(kind) => kind,
            None => TetriminoType::O,
        };
        self.dealt = Ghost(self.dealt@.push(r));
        r
    }

    /// Hands out the kind at the front of the window, and moves a kind from
    /// the bag to its back.
    pub fn next(&mut self) -> (r: TetriminoType)
        requires
            old(self).wf(),
        ensures
            final(self).wf(),
            r == old(self)@.queue[0],
            final(self)@.dealt.len() == old(self)@.dealt.len() + 1,
            drawn(final(self)@) == drawn(old(self)@).push(r),
    {
        // move a bag tetrimino into the queue
        let next = self.next_bag();
        self.queue.push_back(next);
        // provide an element of the queue
        let r = match self.queue.pop_front() {
            Some(kind) => kind,
            None => TetriminoType::O,
        };
        proof {
            let d = self@.dealt;
            assert(self@.queue =~= d.subrange(d.len() - 6, d.len() as int));
            assert(drawn(self@) =~= drawn(old(self)@).push(r));
        }
        r
    }
}

/// Every seven consecutive kinds handed out by a queue, counted from its
/// creation, are the seven kinds in some order.
pub proof fn lemma_draws_come_in_bags(q: NextQueue, b: int)
    requires
        q.wf(),
        0 <= b,
        7 * b + 7 <= drawn(q@).len(),
    ensures
        is_full_bag(drawn(q@).subrange(7 * b, 7 * b + 7)),
{
    assert(drawn(q@).subrange(7 * b, 7 * b + 7) =~= bag_at(q@.dealt, b));
}

impl Default for NextQueue {
    fn default() -> (r: Self)
        ensures
            r.wf(),
            drawn(r@).len() == 0,
    {
        let mut queue = Self {
            queue: VecDeque::new(),
            bag: Vec::new(),
            rng: new_rng(),
            dealt: Ghost(Seq::empty()),
        };
        let mut i: usize = 0;
        while i < 6
            invariant
                i <= 6,
                queue@.dealt.len() == i,
                queue@.queue == queue@.dealt,
                bags_ok(queue@.dealt, queue@.bag),
            decreases 6 - i,
        {
            let kind = queue.next_bag();
            queue.queue.push_back(kind);
            i += 1;
        }
        proof {
            assert(queue@.queue =~= queue@.dealt.subrange(0, 6));
        }
        queue
    }
}

/// The position reached by a movement of `p` in `field`, or nothing when the
/// movement is rejected. A drop leaves the piece where it is.
pub open spec fn movement_result(p: TetriminoView, movement: Movement, field: MatrixView) -> Option<
    TetriminoView,
> {
    match movement {
        Movement::Rotate(direction) => match kick_index(p, direction, field) {
            Some(k) => Some(kicked(p, direction, k)),
            None => None,
        },
        Movement::Left => if can_move(p, -1, 0, field) {
            Some(moved(p, -1, 0))
        } else {
            None
        },
        Movement::Right => if can_move(p, 1, 0, field) {
            Some(moved(p, 1, 0))
        } else {
            None
        },
        Movement::Down => if can_move(p, 0, -1, field) {
            Some(moved(p, 0, -1))
        } else {
            None
        },
        Movement::Drop => Some(p),
    }
}

/// The field and its falling piece.
#[derive(Debug)]
pub struct Game {
    pub tetrimino: Tetrimino,
    pub matrix: Matrix,
}

impl Game {
    /// A well-formed piece over a rectangular field of the play dimensions.
    pub open spec fn wf(&self) -> bool {
        &&& self.tetrimino.wf()
        &&& self.matrix.wf()
        &&& self.matrix@.rows == MATRIX_HEIGHT
        &&& self.matrix@.cols == MATRIX_WIDTH
    }

    /// Locks the falling piece into the field and replaces it by a fresh piece
    /// of `tetrimino_type`.
    pub fn next_tetrimino(&mut self, tetrimino_type: TetriminoType)
        requires
            old(self).wf(),
        ensures
            final(self).wf(),
            final(self).matrix@ == stamp(old(self).matrix@, piece_minos(old(self).tetrimino@)),
            final(self).tetrimino@ == spawned(tetrimino_type),
    {
        // lock the current Tetrimino
        let minos = self.tetrimino.get_minos();
        let mut k: usize = 0;
        while k < minos.len()
            invariant
                self.matrix.wf(),
                self.matrix@.rows == MATRIX_HEIGHT,
                self.matrix@.cols == MATRIX_WIDTH,
                minos@ == piece_minos(old(self).tetrimino@),
                k <= minos@.len(),
                self.matrix@ == stamp(old(self).matrix@, minos@.subrange(0, k as int)),
            decreases minos.len() - k,
        {
            self.matrix.set_mino(minos[k]);
            proof {
                assert(minos@.subrange(0, k + 1).drop_last() =~= minos@.subrange(0, k as int));
            }
            k += 1;
        }
        proof {
            assert(minos@.subrange(0, minos@.len() as int) =~= minos@);
        }
        // new Tetrimino
        self.tetrimino = Tetrimino::new(tetrimino_type);
    }

    /// Moves or turns the falling piece. Returns whether the movement was
    /// applied; a drop is always reported as applied and changes nothing.
    pub fn apply_movement(&mut self, movement: Movement) -> (r: bool)
        requires
            old(self).wf(),
        ensures
            final(self).wf(),
            final(self).matrix == old(self).matrix,
            r == movement_result(old(self).tetrimino@, movement, old(self).matrix@) is Some,
            movement_result(old(self).tetrimino@, movement, old(self).matrix@) matches Some(p)
                ==> final(self).tetrimino@ == p,
            !r ==> final(self).tetrimino == old(self).tetrimino,
    {
        match movement {
            Movement::Rotate(rotation) => self.tetrimino.rotate(rotation, &self.matrix),
            Movement::Left => self.tetrimino.move_position(-1, 0, &self.matrix),
            Movement::Right => self.tetrimino.move_position(1, 0, &self.matrix),
            Movement::Down => self.tetrimino.move_position(0, -1, &self.matrix),
            Movement::Drop => true,
        }
    }
}

/// Everything a running game holds.
pub struct GameState {
    pub running: bool,
    pub next_queue: NextQueue,
    pub game: Game,
}

impl GameState {
    /// A well-formed sequencer and game.
    pub open spec fn wf(&self) -> bool {
        self.next_queue.wf() && self.game.wf()
    }

    /// Applies one message from the input side: quitting stops the game, a
    /// move goes to the falling piece, and a request for a new piece locks the
    /// current one and spawns the next kind from the sequencer.
    pub fn apply_message(&mut self, message: Message)
        requires
            old(self).wf(),
        ensures
            final(self).wf(),
            message == Message::QuitGame ==> !final(self).running && final(self).game == old(
                self,
            ).game && final(self).next_queue == old(self).next_queue,
            message matches Message::Move(movement) ==> {
                &&& final(self).running == old(self).running
                &&& final(self).next_queue == old(self).next_queue
                &&& final(self).game.matrix == old(self).game.matrix
                &&& movement_result(old(self).game.tetrimino@, movement, old(self).game.matrix@) matches Some(p)
                    ==> final(self).game.tetrimino@ == p
                &&& movement_result(old(self).game.tetrimino@, movement, old(self).game.matrix@) is None
                    ==> final(self).game.tetrimino == old(self).game.tetrimino
            },
            message == Message::NewTetrimino ==> {
                &&& final(self).running == old(self).running
                &&& drawn(final(self).next_queue@) == drawn(old(self).next_queue@).push(
                    old(self).next_queue@.queue[0],
                )
                &&& final(self).game.matrix@ == stamp(
                    old(self).game.matrix@,
                    piece_minos(old(self).game.tetrimino@),
                )
                &&& final(self).game.tetrimino@ == spawned(old(self).next_queue@.queue[0])
            },
    {
        match message {
            Message::QuitGame => {
                self.running = false;
            },
            Message::Move(movement) => {
                self.game.apply_movement(movement);
            },
            Message::NewTetrimino => {
                let kind = self.next_queue.next();
                self.game.next_tetrimino(kind);
            },
        }
    }
}

impl Default for GameState {
    fn default() -> (r: Self)
        ensures
            r.wf(),
            r.running,
            drawn(r.next_queue@) == seq![r.game.tetrimino@.kind],
            r.game.tetrimino@ == spawned(r.game.tetrimino@.kind),
            all_empty(r.game.matrix@),
            r.game.matrix@.rotation == Facing::North,
    {
        let mut next_queue = NextQueue::default();
        let kind = next_queue.next();
        proof {
            assert(drawn(next_queue@) =~= seq![kind]);
        }
        Self {
            running: true,
            next_queue,
            game: Game {
                tetrimino: Tetrimino::new(kind),
                matrix: Matrix::new(MATRIX_HEIGHT as usize, MATRIX_WIDTH as usize, Facing::North),
            },
        }
    }
}

} // verus!
