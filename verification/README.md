# mediascraper

A media-extraction service for social platforms, with its logic verified
by Verus.

- `src/` is the verified library:
  - `validator` decides which platform a URL belongs to from the
    platforms' URL patterns (through the `regex` crate);
  - `api` decides what a request to `/api/` gets: a refusal, or the
    scraper of a platform and what to give it (an Instagram post by its
    shortcode), and puts a scraper's success into the documented answer
    (`data`, `total`, `platform`);
  - `instagram` and `tiktok` describe the requests made to each platform and
    reshape what comes back into the service's answers; the TikTok page
    fetch is a state machine whose steps the service carries out (the
    embedded data is found with the `scraper` crate);
  - `twitter` finds a post's video address in its page;
  - `json` is the JSON value the library works on, with its model;
  - `text` holds verified string routines (search, replacement, trimming,
    decimal rendering).
- `app/` is the HTTP service (actix-web), the HTTP client calls (reqwest),
  the template rendering (tera), and the conversion between `serde_json`
  values and the library's JSON values.
- `tests/` runs the library on concrete inputs.
