use vstd::prelude::*;
use crate::error::{Error, ErrorView};
use crate::text::{copy_text, same_text, texts};

verus! {

/// The bits of the permission called `name`, if there is one. The three presets hold
/// several bits each; every other name holds one.
pub open spec fn permission_bits(name: Seq<char>) -> Option<u64> {
    if name == "PRESET_GENERAL"@ {
        Some(0x0637_dc41u64)
    } else if name == "PRESET_TEXT"@ {
        Some(0x0007_fc40u64)
    } else if name == "PRESET_VOICE"@ {
        Some(0x03f0_0000u64)
    } else if name == "CREATE_INVITE"@ {
        Some(0x0000_0001u64)
    } else if name == "KICK_MEMBERS"@ {
        Some(0x0000_0002u64)
    } else if name == "BAN_MEMBERS"@ {
        Some(0x0000_0004u64)
    } else if name == "ADMINISTRATOR"@ {
        Some(0x0000_0008u64)
    } else if name == "MANAGE_CHANNELS"@ {
        Some(0x0000_0010u64)
    } else if name == "MANAGE_GUILD"@ {
        Some(0x0000_0020u64)
    } else if name == "ADD_REACTIONS"@ {
        Some(0x0000_0040u64)
    } else if name == "VIEW_AUDIT_LOG"@ {
        Some(0x0000_0080u64)
    } else if name == "PRIORITY_SPEAKER"@ {
        Some(0x0000_0100u64)
    } else if name == "READ_MESSAGES"@ {
        Some(0x0000_0400u64)
    } else if name == "SEND_MESSAGES"@ {
        Some(0x0000_0800u64)
    } else if name == "SEND_TTS_MESSAGES"@ {
        Some(0x0000_1000u64)
    } else if name == "MANAGE_MESSAGES"@ {
        Some(0x0000_2000u64)
    } else if name == "EMBED_LINKS"@ {
        Some(0x0000_4000u64)
    } else if name == "ATTACH_FILES"@ {
        Some(0x0000_8000u64)
    } else if name == "READ_MESSAGE_HISTORY"@ {
        Some(0x0001_0000u64)
    } else if name == "MENTION_EVERYONE"@ {
        Some(0x0002_0000u64)
    } else if name == "USE_EXTERNAL_EMOJIS"@ {
        Some(0x0004_0000u64)
    } else if name == "CONNECT"@ {
        Some(0x0010_0000u64)
    } else if name == "SPEAK"@ {
        Some(0x0020_0000u64)
    } else if name == "MUTE_MEMBERS"@ {
        Some(0x0040_0000u64)
    } else if name == "DEAFEN_MEMBERS"@ {
        Some(0x0080_0000u64)
    } else if name == "MOVE_MEMBERS"@ {
        Some(0x0100_0000u64)
    } else if name == "USE_VAD"@ {
        Some(0x0200_0000u64)
    } else if name == "CHANGE_NICKNAME"@ {
        Some(0x0400_0000u64)
    } else if name == "MANAGE_NICKNAMES"@ {
        Some(0x0800_0000u64)
    } else if name == "MANAGE_ROLES"@ {
        Some(0x1000_0000u64)
    } else if name == "MANAGE_WEBHOOKS"@ {
        Some(0x2000_0000u64)
    } else if name == "MANAGE_EMOJIS"@ {
        Some(0x4000_0000u64)
    } else {
        None
    }
}

/// Looks a permission up by its name.
pub fn permission(name: &str) -> (r: Option<u64>)
    ensures
        r == permission_bits(name@),
{
    if same_text(name, "PRESET_GENERAL") {
        Some(0x0637_dc41u64)
    } else if same_text(name, "PRESET_TEXT") {
        Some(0x0007_fc40u64)
    } else if same_text(name, "PRESET_VOICE") {
        Some(0x03f0_0000u64)
    } else if same_text(name, "CREATE_INVITE") {
        Some(0x0000_0001u64)
    } else if same_text(name, "KICK_MEMBERS") {
        Some(0x0000_0002u64)
    } else if same_text(name, "BAN_MEMBERS") {
        Some(0x0000_0004u64)
    } else if same_text(name, "ADMINISTRATOR") {
        Some(0x0000_0008u64)
    } else if same_text(name, "MANAGE_CHANNELS") {
        Some(0x0000_0010u64)
    } else if same_text(name, "MANAGE_GUILD") {
        Some(0x0000_0020u64)
    } else if same_text(name, "ADD_REACTIONS") {
        Some(0x0000_0040u64)
    } else if same_text(name, "VIEW_AUDIT_LOG") {
        Some(0x0000_0080u64)
    } else if same_text(name, "PRIORITY_SPEAKER") {
        Some(0x0000_0100u64)
    } else if same_text(name, "READ_MESSAGES") {
        Some(0x0000_0400u64)
    } else if same_text(name, "SEND_MESSAGES") {
        Some(0x0000_0800u64)
    } else if same_text(name, "SEND_TTS_MESSAGES") {
        Some(0x0000_1000u64)
    } else if same_text(name, "MANAGE_MESSAGES") {
        Some(0x0000_2000u64)
    } else if same_text(name, "EMBED_LINKS") {
        Some(0x0000_4000u64)
    } else if same_text(name, "ATTACH_FILES") {
        Some(0x0000_8000u64)
    } else if same_text(name, "READ_MESSAGE_HISTORY") {
        Some(0x0001_0000u64)
    } else if same_text(name, "MENTION_EVERYONE") {
        Some(0x0002_0000u64)
    } else if same_text(name, "USE_EXTERNAL_EMOJIS") {
        Some(0x0004_0000u64)
    } else if same_text(name, "CONNECT") {
        Some(0x0010_0000u64)
    } else if same_text(name, "SPEAK") {
        Some(0x0020_0000u64)
    } else if same_text(name, "MUTE_MEMBERS") {
        Some(0x0040_0000u64)
    } else if same_text(name, "DEAFEN_MEMBERS") {
        Some(0x0080_0000u64)
    } else if same_text(name, "MOVE_MEMBERS") {
        Some(0x0100_0000u64)
    } else if same_text(name, "USE_VAD") {
        Some(0x0200_0000u64)
    } else if same_text(name, "CHANGE_NICKNAME") {
        Some(0x0400_0000u64)
    } else if same_text(name, "MANAGE_NICKNAMES") {
        Some(0x0800_0000u64)
    } else if same_text(name, "MANAGE_ROLES") {
        Some(0x1000_0000u64)
    } else if same_text(name, "MANAGE_WEBHOOKS") {
        Some(0x2000_0000u64)
    } else if same_text(name, "MANAGE_EMOJIS") {
        Some(0x4000_0000u64)
    } else {
        None
    }
}

/// The bitfield of a list of permission names: the union of their bits, or the
/// error for the first name in the list that is no permission.
pub open spec fn resolved(names: Seq<Seq<char>>) -> Result<u64, ErrorView>
    decreases names.len(),
{
    if names.len() == 0 {
        Ok(0u64)
    } else {
        match resolved(names.drop_last()) {
            Err(e) => Err(e),
            Ok(acc) => match permission_bits(names.last()) {
                None => Err(ErrorView::UnknownPermission(names.last())),
                Some(b) => Ok(acc | b),
            },
        }
    }
}

/// Resolves a list of permission names to one bitfield.
pub fn resolve_permissions(names: &Vec<String>) -> (r: Result<u64, Error>)
    ensures
        match r {
            Ok(bits) => resolved(texts(names@)) == Ok::<u64, ErrorView>(bits),
            Err(e) => resolved(texts(names@)) == Err::<u64, ErrorView>(e@),
        },
{
    let ghost all = texts(names@);
    let mut bits: u64 = 0;
    let mut i: usize = 0;
    while i < names.len()
        invariant
            i <= names.len(),
            all == texts(names@),
            resolved(all.take(i as int)) == Ok::<u64, ErrorView>(bits),
        decreases names.len() - i,
    {
        proof {
            assert(all.take(i + 1).drop_last() =~= all.take(i as int));
            assert(all.take(i + 1).last() == names@[i as int]@);
        }
        match permission(names[i].as_str()) {
            Some(b) => {
                bits = bits | b;
            },
            None => {
                proof {
                    lemma_error_stays(all.take(i + 1), all.skip(i + 1));
                    assert(all.take(i + 1) + all.skip(i + 1) =~= all);
                }
                return Err(Error::UnknownPermission(copy_text(names[i].as_str())));
            },
        }
        i += 1;
    }
    assert(all.take(i as int) =~= all);
    Ok(bits)
}

/// How the results for two lists combine into the result for the two in a row.
pub open spec fn joined(a: Result<u64, ErrorView>, b: Result<u64, ErrorView>) -> Result<
    u64,
    ErrorView,
> {
    match a {
        Err(e) => Err(e),
        Ok(x) => match b {
            Err(e) => Err(e),
            Ok(y) => Ok(x | y),
        },
    }
}

/// Resolving two lists in a row gives the union of what each resolves to, and the
/// error of the first that fails.
pub proof fn lemma_resolved_concat(a: Seq<Seq<char>>, b: Seq<Seq<char>>)
    ensures
        resolved(a + b) == joined(resolved(a), resolved(b)),
    decreases b.len(),
{
    if b.len() == 0 {
        assert(a + b =~= a);
        if let Ok(x) = resolved(a) {
            assert(x | 0u64 == x) by (bit_vector);
        }
    } else {
        lemma_resolved_concat(a, b.drop_last());
        assert((a + b).drop_last() =~= a + b.drop_last());
        assert((a + b).last() == b.last());
        if let Ok(x) = resolved(a) {
            if let Ok(y) = resolved(b.drop_last()) {
                if let Some(z) = permission_bits(b.last()) {
                    assert((x | y) | z == x | (y | z)) by (bit_vector);
                }
            }
        }
    }
}

/// A list that fails keeps its error whatever follows it.
pub proof fn lemma_error_stays(a: Seq<Seq<char>>, b: Seq<Seq<char>>)
    requires
        resolved(a) is Err,
    ensures
        resolved(a + b) == resolved(a),
{
    lemma_resolved_concat(a, b);
}

/// A list resolves if and only if each of its names is a permission.
pub proof fn lemma_resolved_ok(names: Seq<Seq<char>>)
    ensures
        resolved(names) is Ok <==> forall|i: int|
            0 <= i < names.len() ==> permission_bits(#[trigger] names[i]) is Some,
    decreases names.len(),
{
    if names.len() > 0 {
        lemma_resolved_ok(names.drop_last());
        let front = names.drop_last();
        assert(forall|i: int| 0 <= i < front.len() ==> front[i] == names[i]);
        if resolved(names) is Ok {
            assert forall|i: int| 0 <= i < names.len() implies permission_bits(
                #[trigger] names[i],
            ) is Some by {
                if i < front.len() {
                    assert(permission_bits(front[i]) is Some);
                }
            }
        }
    }
}

/// A name that is no permission makes the list fail with the error for an unknown
/// permission, wherever in the list it stands.
pub proof fn lemma_unknown_fails(names: Seq<Seq<char>>, i: int)
    requires
        0 <= i < names.len(),
        permission_bits(names[i]) is None,
    ensures
        resolved(names) is Err,
        resolved(names)->Err_0 is UnknownPermission,
    decreases names.len(),
{
    lemma_resolved_ok(names);
    lemma_error_kind(names);
}

/// The only error of a resolution is the one for an unknown permission, and it
/// names an entry of the list that is none.
pub proof fn lemma_error_kind(names: Seq<Seq<char>>)
    ensures
        resolved(names) is Err ==> exists|i: int|
            0 <= i < names.len() && permission_bits(#[trigger] names[i]) is None && resolved(
                names,
            )->Err_0 == ErrorView::UnknownPermission(names[i]),
    decreases names.len(),
{
    if names.len() > 0 {
        let front = names.drop_last();
        lemma_error_kind(front);
        if resolved(front) is Err {
            let i = choose|i: int|
                0 <= i < front.len() && permission_bits(#[trigger] front[i]) is None && resolved(
                    front,
                )->Err_0 == ErrorView::UnknownPermission(front[i]);
            assert(names[i] == front[i]);
        } else if resolved(names) is Err {
            assert(names[names.len() - 1] == names.last());
        }
    }
}

/// The order of two lists of permissions does not matter: in either order they
/// resolve or fail together, and where they resolve they give one bitfield.
pub proof fn lemma_order_independent(a: Seq<Seq<char>>, b: Seq<Seq<char>>)
    ensures
        resolved(a + b) is Ok <==> resolved(b + a) is Ok,
        resolved(a + b) is Ok ==> resolved(a + b) == resolved(b + a),
{
    lemma_resolved_concat(a, b);
    lemma_resolved_concat(b, a);
    if let Ok(x) = resolved(a) {
        if let Ok(y) = resolved(b) {
            assert(x | y == y | x) by (bit_vector);
        }
    }
}

/// Two permissions give one bitfield in either order.
pub proof fn lemma_pair_order_independent(a: Seq<char>, b: Seq<char>)
    ensures
        resolved(seq![a, b]) is Ok <==> resolved(seq![b, a]) is Ok,
        resolved(seq![a, b]) is Ok ==> resolved(seq![a, b]) == resolved(seq![b, a]),
{
    lemma_order_independent(seq![a], seq![b]);
    assert(seq![a] + seq![b] =~= seq![a, b]);
    assert(seq![b] + seq![a] =~= seq![b, a]);
}

} // verus!
