//! Which build jobs a run starts: every recipe on every image it names (among those chosen),
//! or every recipe on the default image of each simple target.

use crate::cli::metadata::ImageTarget;
use crate::recipe::metadata::deps::list_contains;
use crate::recipe::metadata::BuildTarget;
use crate::text::string_views;
use vstd::prelude::*;

verus! {

/// A build of one recipe on one image for one target.
#[derive(Clone, Debug)]
pub struct Job {
    /// The position of the recipe among the recipes
    pub recipe: usize,
    pub image: String,
    pub target: BuildTarget,
}

/// The views of a list of jobs.
pub open spec fn job_views(v: Seq<Job>) -> Seq<(int, Seq<char>, BuildTarget)> {
    v.map_values(|j: Job| (j.recipe as int, j.image@, j.target))
}

/// Whether an image named by a recipe is built: it must be chosen (all are when none are) and
/// exist among the custom images.
pub open spec fn image_chosen(image: Seq<char>, filter: Seq<Seq<char>>, existing: Seq<Seq<char>>) -> bool {
    (filter.len() == 0 || filter.contains(image)) && existing.contains(image)
}

/// The jobs of recipe `r` on its images.
pub open spec fn recipe_jobs(
    r: int,
    images: Seq<(Seq<char>, BuildTarget)>,
    filter: Seq<Seq<char>>,
    existing: Seq<Seq<char>>,
) -> Seq<(int, Seq<char>, BuildTarget)>
    decreases images.len(),
{
    if images.len() == 0 {
        Seq::empty()
    } else {
        let pre = recipe_jobs(r, images.drop_last(), filter, existing);
        let (image, target) = images.last();
        if image_chosen(image, filter, existing) {
            pre.push((r, image, target))
        } else {
            pre
        }
    }
}

/// The jobs of the recipes on the images they name, recipe after recipe.
pub open spec fn custom_jobs(
    recipes: Seq<Seq<(Seq<char>, BuildTarget)>>,
    filter: Seq<Seq<char>>,
    existing: Seq<Seq<char>>,
) -> Seq<(int, Seq<char>, BuildTarget)>
    decreases recipes.len(),
{
    if recipes.len() == 0 {
        Seq::empty()
    } else {
        custom_jobs(recipes.drop_last(), filter, existing) + recipe_jobs(
            recipes.len() - 1,
            recipes.last(),
            filter,
            existing,
        )
    }
}

/// The views of the images of each recipe.
pub open spec fn recipes_images(v: Seq<Vec<ImageTarget>>) -> Seq<Seq<(Seq<char>, BuildTarget)>> {
    v.map_values(|imgs: Vec<ImageTarget>| imgs@.map_values(|t: ImageTarget| (t.image@, t.target)))
}

/// The jobs of the recipes (given by the images they name) on the chosen custom images; none
/// when there are no custom images.
pub fn custom_image_jobs(
    recipes: &Vec<Vec<ImageTarget>>,
    filter: &Vec<String>,
    user_images: &Option<Vec<String>>,
) -> (r: Vec<Job>)
    requires
        recipes@.len() <= usize::MAX,
    ensures
        match user_images {
            None => r@.len() == 0,
            Some(existing) => job_views(r@) == custom_jobs(
                recipes_images(recipes@),
                string_views(filter@),
                string_views(existing@),
            ),
        },
{
    let mut jobs: Vec<Job> = Vec::new();
    let existing = match user_images {
        None => {
            return jobs;
        },
        Some(e) => e,
    };
    let ghost f = string_views(filter@);
    let ghost ex = string_views(existing@);
    let ghost all = recipes_images(recipes@);
    let mut i: usize = 0;
    assert(all.take(0) =~= Seq::<Seq<(Seq<char>, BuildTarget)>>::empty());
    assert(job_views(jobs@) =~= Seq::<(int, Seq<char>, BuildTarget)>::empty());
    while i < recipes.len()
        invariant
            i <= recipes@.len(),
            f == string_views(filter@),
            ex == string_views(existing@),
            all == recipes_images(recipes@),
            job_views(jobs@) == custom_jobs(all.take(i as int), f, ex),
        decreases recipes@.len() - i,
    {
        let images = &recipes[i];
        let ghost imgs = all[i as int];
        assert(imgs == images@.map_values(|t: ImageTarget| (t.image@, t.target)));
        let ghost start = job_views(jobs@);
        let mut j: usize = 0;
        assert(imgs.take(0) =~= Seq::<(Seq<char>, BuildTarget)>::empty());
        assert(start + recipe_jobs(i as int, imgs.take(0), f, ex) =~= start);
        while j < images.len()
            invariant
                i < recipes@.len(),
                j <= images@.len(),
                *images == recipes@[i as int],
                imgs == images@.map_values(|t: ImageTarget| (t.image@, t.target)),
                f == string_views(filter@),
                ex == string_views(existing@),
                job_views(jobs@) == start + recipe_jobs(i as int, imgs.take(j as int), f, ex),
            decreases images@.len() - j,
        {
            assert(imgs.take(j + 1).drop_last() =~= imgs.take(j as int));
            assert(imgs.take(j + 1).last() == (images@[j as int].image@, images@[j as int].target));
            let it = &images[j];
            let chosen = (filter.len() == 0 || list_contains(filter, it.image.as_str()))
                && list_contains(existing, it.image.as_str());
            proof {
                assert(crate::recipe::metadata::deps::set_of(*filter) == f.to_set());
                assert(crate::recipe::metadata::deps::set_of(*existing) == ex.to_set());
            }
            if chosen {
                let ghost before = jobs@;
                jobs.push(Job { recipe: i, image: it.image.clone(), target: it.target });
                assert(job_views(jobs@) =~= job_views(before).push((i as int, it.image@, it.target)));
            }
            j += 1;
        }
        assert(imgs.take(j as int) =~= imgs);
        assert(all.take(i + 1).drop_last() =~= all.take(i as int));
        assert(all.take(i + 1).last() == imgs);
        i += 1;
    }
    assert(all.take(i as int) =~= all);
    jobs
}

/// Every recipe on every simple target's image, recipe after recipe.
pub open spec fn simple_jobs_spec(n: nat, images: Seq<(Seq<char>, BuildTarget)>) -> Seq<
    (int, Seq<char>, BuildTarget),
>
    decreases n,
{
    if n == 0 {
        Seq::empty()
    } else {
        simple_jobs_spec((n - 1) as nat, images) + images.map_values(
            |it: (Seq<char>, BuildTarget)| ((n - 1) as int, it.0, it.1),
        )
    }
}

/// The jobs of `n` recipes on the images of the simple targets.
pub fn simple_jobs(n: usize, images: &Vec<(String, BuildTarget)>) -> (r: Vec<Job>)
    ensures
        job_views(r@) == simple_jobs_spec(
            n as nat,
            images@.map_values(|it: (String, BuildTarget)| (it.0@, it.1)),
        ),
{
    let ghost imgs = images@.map_values(|it: (String, BuildTarget)| (it.0@, it.1));
    let mut jobs: Vec<Job> = Vec::new();
    let mut i: usize = 0;
    assert(job_views(jobs@) =~= Seq::<(int, Seq<char>, BuildTarget)>::empty());
    while i < n
        invariant
            i <= n,
            imgs == images@.map_values(|it: (String, BuildTarget)| (it.0@, it.1)),
            job_views(jobs@) == simple_jobs_spec(i as nat, imgs),
        decreases n - i,
    {
        let ghost start = job_views(jobs@);
        let mut j: usize = 0;
        while j < images.len()
            invariant
                i < n,
                j <= images@.len(),
                imgs == images@.map_values(|it: (String, BuildTarget)| (it.0@, it.1)),
                job_views(jobs@) == start + imgs.take(j as int).map_values(
                    |it: (Seq<char>, BuildTarget)| (i as int, it.0, it.1),
                ),
            decreases images@.len() - j,
        {
            let ghost before = jobs@;
            jobs.push(Job { recipe: i, image: images[j].0.clone(), target: images[j].1 });
            assert(job_views(jobs@) =~= job_views(before).push((i as int, images@[j as int].0@, images@[j as int].1)));
            assert(imgs.take(j + 1).map_values(|it: (Seq<char>, BuildTarget)| (i as int, it.0, it.1))
                =~= imgs.take(j as int).map_values(|it: (Seq<char>, BuildTarget)| (i as int, it.0, it.1)).push(
                (i as int, images@[j as int].0@, images@[j as int].1),
            ));
            j += 1;
        }
        assert(imgs.take(j as int) =~= imgs);
        i += 1;
    }
    jobs
}

} // verus!
