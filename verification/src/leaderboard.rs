//! Scoring of submitted games and assembly of the leaderboard.
use vstd::prelude::*;

use crate::decimal::{decimal, decimal_string};
use crate::keys::{leaderboard_key, leaderboard_key_spec, profile_prefix, user_key, user_prefix};
use crate::model::{HttpStatus, LbData, LbResponse, Profile, ResponseMsg};

verus! {

/// Rating of a game: a bonus for accuracy plus the steps taken, plus the earnings
/// above 1000 (or all of them when they are exactly 2000).
pub open spec fn rating_spec(accuracy: int, highest_earning: int, steps: int) -> int {
    if highest_earning < 1000 {
        100 - accuracy + steps
    } else if highest_earning == 2000 {
        highest_earning + (100 - accuracy) + steps
    } else {
        (highest_earning - 1000) + (100 - accuracy) + steps
    }
}

/// The inputs on which the rating is a `u32`: an accuracy of at most 100 and a
/// rating that fits.
pub open spec fn rating_defined(body: LbData) -> bool {
    &&& body.accuracy <= 100
    &&& rating_spec(body.accuracy as int, body.highest_earning as int, body.steps as int)
        <= u32::MAX
}

/// The rating of a submitted game.
pub fn rating(body: &LbData) -> (r: u32)
    requires
        rating_defined(*body),
    ensures
        r == rating_spec(body.accuracy as int, body.highest_earning as int, body.steps as int),
{
    if body.highest_earning < 1000 {
        100 - body.accuracy + body.steps
    } else if body.highest_earning == 2000 {
        body.highest_earning + (100 - body.accuracy) + body.steps
    } else {
        (body.highest_earning - 1000) + (100 - body.accuracy) + body.steps
    }
}

/// How the rating of a game responds to its inputs: a game with no earnings
/// scores its accuracy bonus (`100 - accuracy`) plus its steps; earnings below 1000
/// add nothing; from 1000 up each unit of earnings adds one point, counted from
/// 1000, except that earnings of exactly 2000 count in full; each point of
/// accuracy costs one point and each step adds one.
pub proof fn lemma_rating_shape(accuracy: int, highest_earning: int, steps: int)
    ensures
        rating_spec(accuracy, 0, steps) == 100 - accuracy + steps,
        highest_earning < 1000 ==> rating_spec(accuracy, highest_earning, steps) == 100 - accuracy
            + steps,
        1000 <= highest_earning && highest_earning != 2000 ==> rating_spec(
            accuracy,
            highest_earning,
            steps,
        ) == (highest_earning - 1000) + (100 - accuracy) + steps,
        rating_spec(accuracy, 2000, steps) == 2000 + (100 - accuracy) + steps,
        1000 <= highest_earning < 1999 ==> rating_spec(accuracy, highest_earning + 1, steps)
            == rating_spec(accuracy, highest_earning, steps) + 1,
        rating_spec(accuracy, 1000, steps) == rating_spec(accuracy, 999, steps),
        rating_spec(accuracy + 1, highest_earning, steps) == rating_spec(accuracy, highest_earning, steps) - 1,
        rating_spec(accuracy, highest_earning, steps + 1) == rating_spec(accuracy, highest_earning, steps) + 1,
{
}

/// The rating of a submitted game, or `None` where computing it overflows (an
/// accuracy above 100, or a rating beyond `u32::MAX`).
pub fn checked_rating(body: &LbData) -> (r: Option<u32>)
    ensures
        match r {
            Some(v) => rating_defined(*body) && v == rating_spec(
                body.accuracy as int,
                body.highest_earning as int,
                body.steps as int,
            ),
            None => !rating_defined(*body),
        },
{
    if body.accuracy > 100 {
        return None;
    }
    let bonus = (100 - body.accuracy) as u64;
    let earning: u64 = if body.highest_earning < 1000 {
        0
    } else if body.highest_earning == 2000 {
        body.highest_earning as u64
    } else {
        (body.highest_earning - 1000) as u64
    };
    let total = earning + bonus + body.steps as u64;
    if total > u32::MAX as u64 {
        None
    } else {
        Some(rating(body))
    }
}

/// Whether a new rating replaces the stored one: unless a stored rating beats it.
pub open spec fn replaces_score(previous: Option<u32>, rating: u32) -> bool {
    !(previous matches Some(p) && p > rating)
}

/// The rating kept on the leaderboard after a submission.
pub open spec fn score_after_upload(previous: Option<u32>, rating: u32) -> u32 {
    if replaces_score(previous, rating) {
        rating
    } else {
        previous->Some_0
    }
}

/// What to do with a new rating once the stored one has been read.
pub enum UploadStep {
    /// Answer at once, without writing.
    Respond(HttpStatus, ResponseMsg),
    /// Store `score` for `member` in the sorted set `key`.
    WriteScore { key: String, member: String, score: u32 },
}

/// The step that a submission of `rating` by `user` takes, given the stored rating
/// (or the failure to read it).
pub open spec fn upload_step_is(previous: Result<Option<u32>, ()>, rating: u32, user: Seq<char>, step: UploadStep) -> bool {
    match previous {
        Err(_) => {
            &&& step matches UploadStep::Respond(status, msg)
            &&& status == HttpStatus::InternalServerError
            &&& msg.status@ == "error"@
            &&& msg.message@ == "Internal server error"@
        },
        Ok(prev) => if replaces_score(prev, rating) {
            &&& step matches UploadStep::WriteScore { key, member, score }
            &&& key@ == leaderboard_key_spec()
            &&& member@ == user
            &&& score == rating
        } else {
            &&& step matches UploadStep::Respond(status, msg)
            &&& status == HttpStatus::Success
            &&& msg.status@ == "success"@
            &&& msg.message@ == "Leaderboard updated"@
        },
    }
}

/// Decides on a new rating submitted by `user_id`, given the stored rating (or
/// the failure to read it).
pub fn upload_decision(previous: Result<Option<u32>, ()>, rating: u32, user_id: &String) -> (step: UploadStep)
    ensures
        upload_step_is(previous, rating, user_id@, step),
{
    match previous {
        Err(_) => UploadStep::Respond(HttpStatus::InternalServerError, ResponseMsg::internal_error()),
        Ok(prev) => {
            let keep_previous = match prev {
                Some(p) => p > rating,
                None => false,
            };
            if keep_previous {
                UploadStep::Respond(HttpStatus::Success, ResponseMsg::new("success", "Leaderboard updated"))
            } else {
                UploadStep::WriteScore { key: leaderboard_key(), member: user_id.clone(), score: rating }
            }
        },
    }
}

/// The leaderboard, as a map from players to ratings, after an upload step.
pub open spec fn board_after(board: Map<Seq<char>, u32>, step: UploadStep) -> Map<Seq<char>, u32> {
    match step {
        UploadStep::WriteScore { member, score, .. } => board.insert(member@, score),
        UploadStep::Respond(..) => board,
    }
}

/// The rating stored for `user` on `board`, if any.
pub open spec fn stored_rating(board: Map<Seq<char>, u32>, user: Seq<char>) -> Option<u32> {
    if board.dom().contains(user) {
        Some(board[user])
    } else {
        None
    }
}

/// A submission only touches the submitting player's entry of the leaderboard:
/// every other player keeps their entry, and the player's entry, once read, never
/// drops and holds at least the new rating.
pub proof fn lemma_upload_touches_only_player(
    board: Map<Seq<char>, u32>,
    user: Seq<char>,
    rating: u32,
    step: UploadStep,
)
    requires
        upload_step_is(Ok(stored_rating(board, user)), rating, user, step),
    ensures
        forall|v: Seq<char>|
            v != user ==> #[trigger] stored_rating(board_after(board, step), v) == stored_rating(board, v),
        board.dom().contains(user) ==> board_after(board, step).dom().contains(user)
            && board_after(board, step)[user] >= board[user],
        board_after(board, step).dom().contains(user) ==> board_after(board, step)[user] >= rating,
        step matches UploadStep::WriteScore { key, .. } ==> key@ == leaderboard_key_spec(),
{
}

/// The answer once the write of a new rating has succeeded (`true`) or failed.
pub fn upload_outcome(written: bool) -> (answer: (HttpStatus, ResponseMsg))
    ensures
        written ==> answer.0 == HttpStatus::Success && answer.1.status@ == "success"@
            && answer.1.message@ == "Leaderboard updated"@,
        !written ==> answer.0 == HttpStatus::InternalServerError && answer.1.status@ == "error"@
            && answer.1.message@ == "Internal server error"@,
{
    if written {
        (HttpStatus::Success, ResponseMsg::new("success", "Leaderboard updated"))
    } else {
        (HttpStatus::InternalServerError, ResponseMsg::internal_error())
    }
}

/// A player's best rating is kept: after a submission the leaderboard holds the
/// larger of the stored rating and the new one.
pub proof fn lemma_best_rating_kept(previous: Option<u32>, rating: u32)
    ensures
        score_after_upload(previous, rating) >= rating,
        previous matches Some(p) ==> score_after_upload(previous, rating) >= p,
        score_after_upload(previous, rating) == rating || previous == Some(
            score_after_upload(previous, rating),
        ),
{
}

/// The rating kept after a series of submissions, starting from `previous`.
pub open spec fn score_after_uploads(previous: Option<u32>, ratings: Seq<u32>) -> Option<u32>
    decreases ratings.len(),
{
    if ratings.len() == 0 {
        previous
    } else {
        Some(score_after_upload(score_after_uploads(previous, ratings.drop_last()), ratings.last()))
    }
}

/// Over any series of submissions the leaderboard holds the player's best rating:
/// one of the submitted ratings or the stored one, at least as high as each.
pub proof fn lemma_best_rating_over_uploads(previous: Option<u32>, ratings: Seq<u32>)
    requires
        ratings.len() > 0,
    ensures
        score_after_uploads(previous, ratings) is Some,
        forall|i: int| 0 <= i < ratings.len() ==> score_after_uploads(previous, ratings)->Some_0 >= #[trigger] ratings[i],
        previous matches Some(p) ==> score_after_uploads(previous, ratings)->Some_0 >= p,
        previous == score_after_uploads(previous, ratings) || exists|i: int|
            0 <= i < ratings.len() && #[trigger] ratings[i] == score_after_uploads(previous, ratings)->Some_0,
    decreases ratings.len(),
{
    let rest = ratings.drop_last();
    let last = ratings.last();
    let before = score_after_uploads(previous, rest);
    lemma_best_rating_kept(before, last);
    if rest.len() > 0 {
        lemma_best_rating_over_uploads(previous, rest);
        assert forall|i: int| 0 <= i < ratings.len() implies score_after_uploads(previous, ratings)->Some_0 >= #[trigger] ratings[i] by {
            if i < rest.len() {
                assert(ratings[i] == rest[i]);
            }
        }
        let m = score_after_uploads(previous, ratings)->Some_0;
        if m != last {
            assert(before == Some(m));
            if previous != before {
                let j = choose|j: int| 0 <= j < rest.len() && #[trigger] rest[j] == before->Some_0;
                assert(ratings[j] == m);
            }
        } else {
            assert(ratings[ratings.len() - 1] == m);
        }
    } else {
        assert(ratings[0] == last);
        assert(before == previous);
    }
}

/// The rows to show: the top players followed by the requesting player.
pub fn leaderboard_rows(top: Vec<(String, u32)>, me: &String, my_rating: u32) -> (rows: Vec<(String, u32)>)
    ensures
        rows@.len() == top@.len() + 1,
        forall|i: int| 0 <= i < top@.len() ==> #[trigger] rows@[i] == top@[i],
        rows@.last().0@ == me@,
        rows@.last().1 == my_rating,
{
    let mut rows = top;
    rows.push((me.clone(), my_rating));
    rows
}

/// The ids of the rows, as strings.
pub open spec fn row_ids(rows: Seq<(String, u32)>) -> Seq<Seq<char>> {
    rows.map_values(|r: (String, u32)| r.0@)
}

/// Rank of row `i`: the requesting player gets their leaderboard position plus one,
/// every other row the rank after the previous row's (1 for the first row).
pub open spec fn rank_spec(ids: Seq<Seq<char>>, me: Seq<char>, position: int, i: nat) -> int
    decreases i,
{
    if ids[i as int] == me {
        position + 1
    } else if i == 0 {
        1
    } else {
        rank_spec(ids, me, position, (i - 1) as nat) + 1
    }
}

/// The position a rank is counted from: the requesting player's position where
/// it is known (a row of theirs cannot be ranked without it).
pub open spec fn position_value(position: Option<u32>) -> int {
    match position {
        Some(p) => p as int,
        None => 0,
    }
}

/// Whether row `i` can be ranked: the requesting player's own row needs their
/// position, and the rank must be a `u32`.
pub open spec fn rank_defined(ids: Seq<Seq<char>>, me: Seq<char>, position: Option<u32>, i: int) -> bool {
    &&& (ids[i] == me ==> position is Some)
    &&& rank_spec(ids, me, position_value(position), i as nat) <= u32::MAX
}

/// The rank of each row of the leaderboard, `position` being the requesting
/// player's zero-based position on the whole leaderboard, as far as the rows can
/// be ranked: the ranks stop before the first row that cannot be.
pub fn leaderboard_ranks(rows: &Vec<(String, u32)>, me: &String, position: Option<u32>) -> (ranks: Vec<u32>)
    ensures
        ranks@.len() <= rows@.len(),
        forall|i: int|
            #![trigger ranks@[i]]
            #![trigger rank_defined(row_ids(rows@), me@, position, i)]
            0 <= i < ranks@.len() ==> rank_defined(row_ids(rows@), me@, position, i)
                && ranks@[i] == rank_spec(row_ids(rows@), me@, position_value(position), i as nat),
        ranks@.len() < rows@.len() ==> !rank_defined(row_ids(rows@), me@, position, ranks@.len() as int),
        position is Some && (forall|i: int|
            0 <= i < rows@.len() ==> #[trigger] rank_spec(row_ids(rows@), me@, position_value(position), i as nat)
                <= u32::MAX) ==> ranks@.len() == rows@.len(),
{
    let ghost ids = row_ids(rows@);
    let ghost pos = position_value(position);
    let own_rank: u64 = match position {
        Some(p) => p as u64 + 1,
        None => 0,
    };
    let mut ranks: Vec<u32> = Vec::new();
    let mut stopped = false;
    let n = rows.len();
    for i in 0..n
        invariant
            n == rows@.len(),
            ids == row_ids(rows@),
            pos == position_value(position),
            position is Some ==> own_rank == pos + 1,
            ranks@.len() <= i,
            !stopped ==> ranks@.len() == i,
            stopped ==> ranks@.len() < n && !rank_defined(ids, me@, position, ranks@.len() as int),
            forall|j: int|
                #![trigger ranks@[j]]
                #![trigger rank_defined(ids, me@, position, j)]
                0 <= j < ranks@.len() ==> rank_defined(ids, me@, position, j)
                    && ranks@[j] == rank_spec(ids, me@, pos, j as nat),
    {
        if !stopped {
            assert(ids[i as int] == rows@[i as int].0@);
            let own = rows[i].0 == *me;
            let next: u64 = if own {
                own_rank
            } else if i == 0 {
                1
            } else {
                ranks[i - 1] as u64 + 1
            };
            if (own && position.is_none()) || next > u32::MAX as u64 {
                stopped = true;
            } else {
                assert(next == rank_spec(ids, me@, pos, i as nat));
                ranks.push(next as u32);
            }
        }
    }
    ranks
}

/// A row can always be ranked when the player's position is known and its rank
/// fits a `u32`: nothing else bounds which rows are ranked.
pub proof fn lemma_rank_defined_when_fits(ids: Seq<Seq<char>>, me: Seq<char>, position: u32, i: int)
    requires
        0 <= i < ids.len(),
        rank_spec(ids, me, position as int, i as nat) <= u32::MAX,
    ensures
        rank_defined(ids, me, Some(position), i),
{
}

/// How the rows are numbered: the player's own row is ranked at their position
/// plus one; any other row is ranked one after the row before it, and the first
/// row, when it is not the player's, is ranked 1. So the rows before the player's
/// first row are ranked 1, 2, 3, ... in order.
pub proof fn lemma_rank_numbering(ids: Seq<Seq<char>>, me: Seq<char>, position: int, i: nat)
    requires
        i < ids.len(),
    ensures
        ids[i as int] == me ==> rank_spec(ids, me, position, i) == position + 1,
        ids[i as int] != me && i == 0 ==> rank_spec(ids, me, position, i) == 1,
        ids[i as int] != me && i > 0 ==> rank_spec(ids, me, position, i) == rank_spec(
            ids,
            me,
            position,
            (i - 1) as nat,
        ) + 1,
        (forall|j: int| 0 <= j <= i ==> ids[j] != me) ==> rank_spec(ids, me, position, i) == i + 1,
    decreases i,
{
    if i > 0 && (forall|j: int| 0 <= j <= i ==> ids[j] != me) {
        lemma_rank_numbering(ids, me, position, (i - 1) as nat);
        assert forall|j: int| 0 <= j <= i - 1 implies ids[j] != me by {
            assert(0 <= j <= i);
        }
    }
}

/// The rows to rank from the three reads that open the leaderboard: the top
/// players, the requesting player's position and their rating. A failed read of the
/// top players answers `500`.
pub fn leaderboard_start(
    top: Result<Vec<(String, u32)>, ()>,
    position: Result<Option<u32>, ()>,
    rating: Result<Option<u32>, ()>,
    me: &String,
) -> (rows: Result<Vec<(String, u32)>, ResponseMsg>)
    requires
        top is Ok ==> position is Ok && rating matches Ok(Some(_)),
    ensures
        top is Err ==> {
            &&& rows is Err
            &&& rows->Err_0.status@ == "error"@
            &&& rows->Err_0.message@ == "Internal server error"@
        },
        top is Ok ==> {
            &&& rows is Ok
            &&& rows->Ok_0@.len() == top->Ok_0@.len() + 1
            &&& forall|i: int| 0 <= i < top->Ok_0@.len() ==> #[trigger] rows->Ok_0@[i] == top->Ok_0@[i]
            &&& rows->Ok_0@.last().0@ == me@
            &&& rows->Ok_0@.last().1 == rating->Ok_0->Some_0
        },
{
    match top {
        Err(_) => Err(ResponseMsg::internal_error()),
        Ok(t) => {
            let my_rating = match rating {
                Ok(Some(r)) => r,
                _ => 0,
            };
            Ok(leaderboard_rows(t, me, my_rating))
        },
    }
}

/// The player's own row shows their leaderboard position plus one, and every other
/// row the rank after the row above it.
pub proof fn lemma_own_rank(ids: Seq<Seq<char>>, me: Seq<char>, position: int, i: nat)
    requires
        i < ids.len(),
    ensures
        ids[i as int] == me ==> rank_spec(ids, me, position, i) == position + 1,
        ids[i as int] != me && i > 0 ==> rank_spec(ids, me, position, i) == rank_spec(ids, me, position, (i - 1) as nat) + 1,
        ids[i as int] != me && i == 0 ==> rank_spec(ids, me, position, i) == 1,
{
}

/// Rows above the player's own row are numbered from 1.
pub proof fn lemma_ranks_before_player(ids: Seq<Seq<char>>, me: Seq<char>, position: int, i: nat)
    requires
        i < ids.len(),
        forall|j: int| 0 <= j <= i ==> ids[j] != me,
    ensures
        rank_spec(ids, me, position, i) == i + 1,
    decreases i,
{
    if i > 0 {
        lemma_ranks_before_player(ids, me, position, (i - 1) as nat);
    }
}

/// One row of the leaderboard from a player's rank, rating, stored statistics
/// (accuracy, highscore, steps, in that order) and profile.
pub fn lb_entry(rank: u32, rating: u32, stats: &Vec<u32>, profile: &Profile) -> (entry: LbResponse)
    requires
        stats@.len() >= 3,
    ensures
        entry.rank == rank,
        entry.rating == rating,
        entry.name@ == profile.name@,
        entry.pfp@ == profile.picture@,
        entry.accuracy == stats@[0],
        entry.highscore == stats@[1],
        entry.steps == stats@[2],
{
    LbResponse {
        rank,
        rating,
        name: profile.name.clone(),
        pfp: profile.picture.clone(),
        accuracy: stats[0],
        highscore: stats[1],
        steps: stats[2],
    }
}

/// One row of the leaderboard, or the `500` answer when the row's statistics
/// could not be read.
pub fn leaderboard_row(rank: u32, rating: u32, stats: Result<Vec<u32>, ()>, profile: &Profile) -> (row: Result<LbResponse, ResponseMsg>)
    requires
        stats matches Ok(v) ==> v@.len() >= 3,
    ensures
        stats is Err ==> {
            &&& row is Err
            &&& row->Err_0.status@ == "error"@
            &&& row->Err_0.message@ == "Internal server error"@
        },
        stats is Ok ==> {
            &&& row is Ok
            &&& row->Ok_0.rank == rank
            &&& row->Ok_0.rating == rating
            &&& row->Ok_0.name@ == profile.name@
            &&& row->Ok_0.pfp@ == profile.picture@
            &&& row->Ok_0.accuracy == stats->Ok_0@[0]
            &&& row->Ok_0.highscore == stats->Ok_0@[1]
            &&& row->Ok_0.steps == stats->Ok_0@[2]
        },
{
    match stats {
        Ok(v) => Ok(lb_entry(rank, rating, &v, profile)),
        Err(_) => Err(ResponseMsg::internal_error()),
    }
}

/// The statistics of a game as stored in the player's permanent record: the
/// accuracy, the highest earning (as `highscore`) and the steps, in decimal.
pub fn leaderboard_fields(body: &LbData) -> (fields: Vec<(String, String)>)
    ensures
        fields@.len() == 3,
        fields@[0].0@ == "accuracy"@ && fields@[0].1@ == decimal(body.accuracy as nat),
        fields@[1].0@ == "highscore"@ && fields@[1].1@ == decimal(body.highest_earning as nat),
        fields@[2].0@ == "steps"@ && fields@[2].1@ == decimal(body.steps as nat),
{
    let mut fields: Vec<(String, String)> = Vec::new();
    fields.push((String::from_str("accuracy"), decimal_string(body.accuracy)));
    fields.push((String::from_str("highscore"), decimal_string(body.highest_earning)));
    fields.push((String::from_str("steps"), decimal_string(body.steps)));
    fields
}

/// The first write of an upload: the game's statistics, stored in the fields of
/// the player's permanent record.
pub struct StatsWrite {
    pub key: String,
    pub fields: Vec<(String, String)>,
}

/// The statistics write for a game submitted by `user_id`: the fields of
/// `leaderboard_fields` under the key `user:<user_id>`.
pub fn stats_write(user_id: &String, body: &LbData) -> (w: StatsWrite)
    ensures
        w.key@ == user_prefix() + user_id@,
        w.fields@.len() == 3,
        w.fields@[0].0@ == "accuracy"@ && w.fields@[0].1@ == decimal(body.accuracy as nat),
        w.fields@[1].0@ == "highscore"@ && w.fields@[1].1@ == decimal(body.highest_earning as nat),
        w.fields@[2].0@ == "steps"@ && w.fields@[2].1@ == decimal(body.steps as nat),
{
    StatsWrite { key: user_key(user_id.as_str()), fields: leaderboard_fields(body) }
}

/// Whether an upload whose statistics went to `stats_key` and which then took
/// `step` writes to the record `k`.
pub open spec fn upload_writes(stats_key: Seq<char>, step: UploadStep, k: Seq<char>) -> bool {
    ||| k == stats_key
    ||| (step matches UploadStep::WriteScore { key, .. } && k == key@)
}

/// An upload by `user` writes only the player's own permanent record and the
/// leaderboard: no other player's permanent record, and no cached profile, is
/// written.
pub proof fn lemma_upload_writes_only_own_records(
    user: Seq<char>,
    stats_key: Seq<char>,
    previous: Result<Option<u32>, ()>,
    rating: u32,
    step: UploadStep,
)
    requires
        stats_key == user_prefix() + user,
        upload_step_is(previous, rating, user, step),
    ensures
        forall|k: Seq<char>|
            #[trigger] upload_writes(stats_key, step, k) ==> k == user_prefix() + user || k
                == leaderboard_key_spec(),
        forall|v: Seq<char>|
            v != user ==> !#[trigger] upload_writes(stats_key, step, user_prefix() + v),
        forall|v: Seq<char>| !#[trigger] upload_writes(stats_key, step, profile_prefix() + v),
{
    assert forall|v: Seq<char>| v != user implies !#[trigger] upload_writes(
        stats_key,
        step,
        user_prefix() + v,
    ) by {
        crate::keys::lemma_keys_distinct(v, user);
        assert((user_prefix() + v)[0] != leaderboard_key_spec()[0]);
    }
    assert forall|v: Seq<char>| !#[trigger] upload_writes(stats_key, step, profile_prefix() + v) by {
        crate::keys::lemma_keys_distinct(v, user);
        assert((profile_prefix() + v)[0] != leaderboard_key_spec()[0]);
    }
}

/// The names of the statistics read back for each row, in the order `lb_entry`
/// takes them.
pub fn leaderboard_stat_names() -> (names: Vec<String>)
    ensures
        names@.len() == 3,
        names@[0]@ == "accuracy"@,
        names@[1]@ == "highscore"@,
        names@[2]@ == "steps"@,
{
    let mut names: Vec<String> = Vec::new();
    names.push(String::from_str("accuracy"));
    names.push(String::from_str("highscore"));
    names.push(String::from_str("steps"));
    names
}

} // verus!
