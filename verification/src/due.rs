use vstd::prelude::*;

use std::collections::VecDeque;

use crate::{date_ok, Command, Mode};

verus! {

/// The daily review allowance before subtracting today's completed reviews.
pub const DAILY_CAP: i64 = 100;

/// Whether the item counts against the daily review allowance: it has been
/// reviewed before (it is not `New`) and its most recent review happened on
/// the given day.
pub open spec fn reviewed_today(c: Command, today: int) -> bool {
    c.sr_data@.mode != Mode::New && c.sr_data@.last_review == Some(today)
}

/// How many items of the collection were already reviewed on the given day.
pub open spec fn reviewed_today_count(items: Seq<Command>, today: int) -> int
    decreases items.len(),
{
    if items.len() == 0 {
        0
    } else {
        reviewed_today_count(items.drop_last(), today) + if reviewed_today(
            items.last(),
            today,
        ) {
            1int
        } else {
            0int
        }
    }
}

/// Whether an item is due on the given day: `Failed` items always are,
/// `Learning` items once at least their interval has elapsed since their
/// last review, and `New` items never.
pub open spec fn is_due(c: Command, today: int) -> bool {
    match c.sr_data@.mode {
        Mode::New => false,
        Mode::Failed => true,
        Mode::Learning => today - c.sr_data@.last_review->0 >= c.sr_data@.interval,
    }
}

/// The due items of the collection, in their stored order, cut off once the
/// remaining daily allowance `cap` is used up.
pub open spec fn select_due(items: Seq<Command>, today: int, cap: int) -> Seq<Command>
    decreases items.len(),
{
    if items.len() == 0 || cap <= 0 {
        Seq::empty()
    } else if is_due(items.first(), today) {
        seq![items.first()] + select_due(items.drop_first(), today, cap - 1)
    } else {
        select_due(items.drop_first(), today, cap)
    }
}

/// Every item that has been reviewed before carries its last review date, and
/// all dates are small enough for day arithmetic.
pub open spec fn items_ok(items: Seq<Command>) -> bool {
    forall|i: int|
        0 <= i < items.len() ==> {
            &&& items[i].sr_data@.mode != Mode::New ==> items[i].sr_data@.last_review is Some
            &&& match items[i].sr_data@.last_review {
                Some(d) => date_ok(d),
                None => true,
            }
        }
}

/// The queue of items due for review today, in stored order: every `Failed`
/// item and every `Learning` item whose interval has elapsed, capped at the
/// daily allowance less one for each item already reviewed today.
pub fn find_today_commands(mut items: Vec<Command>, today: i64) -> (r: VecDeque<Command>)
    requires
        items_ok(items@),
        date_ok(today as int),
    ensures
        r@ == select_due(
            items@,
            today as int,
            DAILY_CAP - reviewed_today_count(items@, today as int),
        ),
{
    let ghost orig: Seq<Command> = items@;

    let mut reviewed: usize = 0;
    let mut i: usize = 0;
    while i < items.len()
        invariant
            items@ == orig,
            items_ok(orig),
            0 <= i <= orig.len(),
            reviewed <= i,
            reviewed == reviewed_today_count(orig.take(i as int), today as int),
        decreases orig.len() - i,
    {
        let c: &Command = &items[i];
        let counts: bool = match c.sr_data.mode {
            Mode::New => false,
            _ => {
                let lr: i64 = c.sr_data.last_review.unwrap();
                lr == today
            },
        };
        if counts {
            reviewed = reviewed + 1;
        }
        proof {
            assert(orig.take(i as int + 1).drop_last() =~= orig.take(i as int));
            assert(orig.take(i as int + 1).last() == orig[i as int]);
        }
        i = i + 1;
    }
    proof {
        assert(orig.take(orig.len() as int) =~= orig);
    }

    let cap: usize = if reviewed >= 100 {
        0
    } else {
        100 - reviewed
    };
    let ghost cap0: int = DAILY_CAP - reviewed_today_count(orig, today as int);
    assert(cap as int == if cap0 >= 0 {
        cap0
    } else {
        0int
    });

    let mut commands: VecDeque<Command> = VecDeque::new();
    let ghost mut taken: int = 0;
    while items.len() > 0 && commands.len() < cap
        invariant
            items_ok(orig),
            date_ok(today as int),
            0 <= taken <= orig.len(),
            items@ == orig.skip(taken),
            commands@.len() <= cap,
            cap as int == if cap0 >= 0 {
                cap0
            } else {
                0int
            },
            select_due(orig, today as int, cap0) == commands@ + select_due(
                orig.skip(taken),
                today as int,
                cap0 - commands@.len(),
            ),
        decreases orig.len() - taken,
    {
        assert(orig.skip(taken).len() > 0);
        assert(cap0 - commands@.len() > 0);
        let c: Command = items.remove(0);
        assert(c == orig.skip(taken).first());
        assert(items@ =~= orig.skip(taken + 1));

        let due: bool = match c.sr_data.mode {
            Mode::New => false,
            Mode::Failed => true,
            Mode::Learning => {
                assert(orig.skip(taken)[0] == orig[taken]);
                c.is_pending(today)
            },
        };
        assert(due == is_due(orig.skip(taken).first(), today as int));

        if due {
            commands.push_back(c);
        }
        proof {
            assert(orig.skip(taken).drop_first() =~= orig.skip(taken + 1));
            taken = taken + 1;
        }
    }

    proof {
        if items@.len() == 0 {
            assert(orig.skip(taken).len() == 0);
            assert(select_due(orig.skip(taken), today as int, cap0 - commands@.len())
                =~= Seq::<Command>::empty());
        } else {
            assert(commands@.len() >= cap);
            assert(cap0 - commands@.len() <= 0);
            assert(select_due(orig.skip(taken), today as int, cap0 - commands@.len())
                =~= Seq::<Command>::empty());
        }
        assert(select_due(orig, today as int, cap0) =~= commands@);
    }
    commands
}

} // verus!
