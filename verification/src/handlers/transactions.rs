//! What the administration does when it mails a donor.

use vstd::prelude::*;
use crate::text::cat4;

verus! {

/// What to do for a request to mail a transaction's donor with a template.
pub enum MailPlan {
    /// The template id is 0: only mark the mail as sent.
    MarkSent,
    /// Send the template at this position with this link to the donor's
    /// stars, then mark the mail as sent.
    SendThenMark(usize, String),
    /// No template has this id.
    BadTemplateId(i32),
}

/// The position of the first template whose id is `id`, if any.
pub open spec fn first_index(ids: Seq<i32>, id: i32) -> Option<int>
    decreases ids.len(),
{
    if ids.len() == 0 {
        None
    } else if ids[0] == id {
        Some(0)
    } else {
        match first_index(ids.skip(1), id) {
            Some(i) => Some(i + 1),
            None => None,
        }
    }
}

/// `first_index` finds the first position that holds `id`: it is `i`
/// exactly when position `i` holds `id` and no earlier one does, and it is
/// `None` exactly when no position holds `id`.
pub proof fn lemma_first_index(ids: Seq<i32>, id: i32)
    ensures
        forall|i: int| #![trigger ids[i]] first_index(ids, id) == Some(i) <==> (0 <= i < ids.len() && ids[i] == id
            && forall|j: int| 0 <= j < i ==> ids[j] != id),
        first_index(ids, id) is None <==> forall|j: int| 0 <= j < ids.len() ==> ids[j] != id,
    decreases ids.len(),
{
    if ids.len() > 0 {
        lemma_first_index(ids.skip(1), id);
        assert forall|j: int| 0 < j < ids.len() implies ids[j] == ids.skip(1)[j - 1] by {}
        if ids[0] != id {
            assert forall|i: int| #![trigger ids[i]] first_index(ids, id) == Some(i) <==> (0 <= i < ids.len()
                && ids[i] == id && forall|j: int| 0 <= j < i ==> ids[j] != id) by {
                if first_index(ids, id) == Some(i) {
                    assert(first_index(ids.skip(1), id) == Some(i - 1));
                    assert(ids.skip(1)[i - 1] == ids[i]);
                    assert forall|j: int| 0 <= j < i implies ids[j] != id by {
                        if j > 0 {
                            assert(ids.skip(1)[j - 1] == ids[j]);
                        }
                    }
                }
                if 0 <= i < ids.len() && ids[i] == id && forall|j: int| 0 <= j < i ==> ids[j] != id {
                    assert(i > 0);
                    assert(ids.skip(1)[i - 1] == id);
                    assert forall|j: int| 0 <= j < i - 1 implies ids.skip(1)[j] != id by {
                        assert(ids.skip(1)[j] == ids[j + 1]);
                    }
                    assert(first_index(ids.skip(1), id) == Some(i - 1));
                }
            }
            if first_index(ids, id) is None {
                assert forall|j: int| 0 <= j < ids.len() implies ids[j] != id by {
                    if j > 0 {
                        assert(ids.skip(1)[j - 1] == ids[j]);
                    }
                }
            }
            if forall|j: int| 0 <= j < ids.len() ==> ids[j] != id {
                assert forall|j: int| 0 <= j < ids.skip(1).len() implies ids.skip(1)[j] != id by {
                    assert(ids.skip(1)[j] == ids[j + 1]);
                }
            }
        }
    }
}

/// The link that lets a donor place the stars of the transaction with
/// `token`, on the site `hostname`.
pub open spec fn token_url(hostname: Seq<char>, token: Seq<char>) -> Seq<char> {
    "https://"@ + hostname + "/?token="@ + token
}

/// Decides how to mail a transaction's donor with the template `tpl_id`,
/// given the ids of the configured templates in order.
pub fn post_transaction_send_mail(tpl_id: i32, template_ids: &Vec<i32>, hostname: &str, token: &str) -> (r: MailPlan)
    ensures
        tpl_id == 0 ==> r is MarkSent,
        tpl_id != 0 && first_index(template_ids@, tpl_id) is None ==> r == MailPlan::BadTemplateId(tpl_id),
        tpl_id != 0 && first_index(template_ids@, tpl_id) is Some ==> (r matches MailPlan::SendThenMark(i, url)
            && i == first_index(template_ids@, tpl_id)->0 && url@ == token_url(hostname@, token@)),
        forall|i: int| #![trigger template_ids@[i]] tpl_id != 0 && 0 <= i < template_ids@.len() && template_ids@[i]
            == tpl_id && (forall|j: int| 0 <= j < i ==> template_ids@[j] != tpl_id) ==> (r matches MailPlan::SendThenMark(
            k, url) && k == i && url@ == "https://"@ + hostname@ + "/?token="@ + token@),
        r is BadTemplateId ==> tpl_id != 0 && forall|j: int| 0 <= j < template_ids@.len() ==> template_ids@[j]
            != tpl_id,
{
    proof {
        lemma_first_index(template_ids@, tpl_id);
    }
    if tpl_id == 0 {
        return MailPlan::MarkSent;
    }
    let mut i: usize = 0;
    assert(template_ids@.skip(0) =~= template_ids@);
    while i < template_ids.len()
        invariant
            i <= template_ids@.len(),
            tpl_id != 0,
            first_index(template_ids@, tpl_id) == match first_index(template_ids@.skip(i as int), tpl_id) {
                Some(j) => Some(j + i),
                None => None::<int>,
            },
        decreases template_ids.len() - i,
    {
        assert(template_ids@.skip(i as int).skip(1) =~= template_ids@.skip(i + 1));
        if template_ids[i] == tpl_id {
            proof {
                assert(first_index(template_ids@, tpl_id) == Some(i as int));
                assert forall|k: int| #![trigger template_ids@[k]] 0 <= k < template_ids@.len() && template_ids@[k]
                    == tpl_id && (forall|j: int| 0 <= j < k ==> template_ids@[j] != tpl_id) implies k == i by {
                    lemma_first_index(template_ids@, tpl_id);
                    assert(template_ids@[k] == tpl_id);
                    assert(first_index(template_ids@, tpl_id) == Some(k));
                }
            }
            return MailPlan::SendThenMark(i, cat4("https://", hostname, "/?token=", token));
        }
        i = i + 1;
    }
    MailPlan::BadTemplateId(tpl_id)
}

} // verus!
