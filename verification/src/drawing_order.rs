//! What holds of the sprites that are picked for a line.

use vstd::prelude::*;
use crate::video::{
    spec_insert_position, SpriteObject, VideoModel, VisibleSprite, SPRITES_PER_LINE, SPRITE_COUNT,
};

verus! {

/// Whether `sprites` stand in drawing order, each before all that follow.
pub open spec fn spec_in_drawing_order(sprites: Seq<VisibleSprite>) -> bool {
    forall|i: int, j: int|
        0 <= i < j < sprites.len() ==> (#[trigger] sprites[i]).sprite.spec_draws_before(
            (#[trigger] sprites[j]).sprite,
        )
}

/// Whether `item` is entry number `item.sprite.index` of the object memory
/// of `v` and reaches over line `line` with its row `item.row`.
pub open spec fn spec_is_visible_entry(v: VideoModel, line: u8, item: VisibleSprite) -> bool {
    &&& item.sprite.index < SPRITE_COUNT
    &&& item.sprite == v.sprite(item.sprite.index as int)
    &&& item.sprite.spec_row_in_sprite(line, v.lcd_control.spec_object_size()) == Some(item.row)
}

proof fn lemma_insert_position(sorted: Seq<VisibleSprite>, sprite: SpriteObject, from: int)
    requires
        0 <= from <= sorted.len(),
    ensures
        from <= spec_insert_position(sorted, sprite, from) <= sorted.len(),
        forall|i: int|
            from <= i < spec_insert_position(sorted, sprite, from) ==> !sprite.spec_draws_before(
                (#[trigger] sorted[i]).sprite,
            ),
        spec_insert_position(sorted, sprite, from) < sorted.len() ==> sprite.spec_draws_before(
            sorted[spec_insert_position(sorted, sprite, from)].sprite,
        ),
    decreases sorted.len() - from,
{
    if from < sorted.len() && !sprite.spec_draws_before(sorted[from].sprite) {
        lemma_insert_position(sorted, sprite, from + 1);
    }
}

/// The sprites found on a line are exactly the entries of the object
/// memory that reach over it, each once, and they stand in drawing order:
/// by column, and within a column by their place in memory.
#[verifier::rlimit(30)]
pub proof fn lemma_visible_sprites(v: VideoModel, line: u8, upto: int)
    requires
        0 <= upto <= SPRITE_COUNT,
    ensures
        spec_in_drawing_order(v.visible_sprites(line, upto)),
        v.visible_sprites(line, upto).len() <= upto,
        forall|k: int|
            0 <= k < v.visible_sprites(line, upto).len() ==> {
                &&& spec_is_visible_entry(v, line, #[trigger] v.visible_sprites(line, upto)[k])
                &&& v.visible_sprites(line, upto)[k].sprite.index < upto
            },
        forall|index: int|
            0 <= index < upto && v.sprite(index).spec_row_in_sprite(
                line,
                v.lcd_control.spec_object_size(),
            ) is Some ==> exists|k: int|
                0 <= k < v.visible_sprites(line, upto).len() && (#[trigger] v.visible_sprites(
                    line,
                    upto,
                )[k]).sprite.index == index,
    decreases upto,
{
    if upto > 0 {
        lemma_visible_sprites(v, line, upto - 1);
        let before = v.visible_sprites(line, upto - 1);
        let after = v.visible_sprites(line, upto);
        let sprite = v.sprite(upto - 1);
        let size = v.lcd_control.spec_object_size();
        match sprite.spec_row_in_sprite(line, size) {
            None => {
                assert(after == before);
                assert forall|index: int|
                    0 <= index < upto && v.sprite(index).spec_row_in_sprite(line, size) is Some
                    implies exists|k: int|
                    0 <= k < after.len() && (#[trigger] after[k]).sprite.index == index by {
                    assert(index < upto - 1);
                }
            },
            Some(row) => {
                let item = VisibleSprite { sprite, row };
                let position = spec_insert_position(before, sprite, 0);
                lemma_insert_position(before, sprite, 0);
                assert(after == before.insert(position, item));
                assert forall|i: int, j: int| 0 <= i < j < after.len() implies (
                #[trigger] after[i]).sprite.spec_draws_before((#[trigger] after[j]).sprite) by {
                    if j == position {
                        // Whatever stands before the new entry has a lower
                        // index and is not drawn after it.
                        assert(after[i] == before[i]);
                        assert(!sprite.spec_draws_before(before[i].sprite));
                        assert(before[i].sprite.index < upto - 1);
                    } else if i == position {
                        assert(after[j] == before[j - 1]);
                        assert(sprite.spec_draws_before(before[position].sprite));
                        if j - 1 > position {
                            assert(before[position].sprite.spec_draws_before(before[j - 1].sprite));
                        }
                    } else {
                        let bi = if i < position {
                            i
                        } else {
                            i - 1
                        };
                        let bj = if j < position {
                            j
                        } else {
                            j - 1
                        };
                        assert(after[i] == before[bi]);
                        assert(after[j] == before[bj]);
                    }
                }
                assert forall|k: int| 0 <= k < after.len() implies spec_is_visible_entry(
                    v,
                    line,
                    #[trigger] after[k],
                ) && after[k].sprite.index < upto by {
                    if k < position {
                        assert(after[k] == before[k]);
                    } else if k > position {
                        assert(after[k] == before[k - 1]);
                    }
                }
                assert forall|index: int|
                    0 <= index < upto && v.sprite(index).spec_row_in_sprite(line, size) is Some
                    implies exists|k: int|
                    0 <= k < after.len() && (#[trigger] after[k]).sprite.index == index by {
                    if index == upto - 1 {
                        assert(after[position].sprite.index == index);
                    } else {
                        let k0 = choose|k: int|
                            0 <= k < before.len() && (#[trigger] before[k]).sprite.index == index;
                        let k1 = if k0 < position {
                            k0
                        } else {
                            k0 + 1
                        };
                        assert(after[k1] == before[k0]);
                    }
                }
            },
        }
    }
}

/// The sprites drawn on a line are the first ten, in drawing order, of
/// those that reach over it.
pub proof fn lemma_line_sprites(v: VideoModel, line: u8)
    ensures
        v.line_sprites(line).len() <= SPRITES_PER_LINE,
        spec_in_drawing_order(v.line_sprites(line)),
        forall|k: int|
            0 <= k < v.line_sprites(line).len() ==> (#[trigger] v.line_sprites(line)[k])
                == v.visible_sprites(line, SPRITE_COUNT as int)[k],
        v.line_sprites(line).len() < SPRITES_PER_LINE ==> v.line_sprites(line)
            == v.visible_sprites(line, SPRITE_COUNT as int),
{
    lemma_visible_sprites(v, line, SPRITE_COUNT as int);
}

} // verus!
