# aivo_services

Decisions behind three services of a terminal agent, verified with Verus:

- `browser_open`: which launcher opens a URL on which platform, and what its outcome means.
- `transform_mode`: the flags behind `--transform` and `--transparent`.
- `vision_describe`: descriptions of images for text-only models, over the hosted gateway or the
  user's own key; with `data_url` (reading base64 data URLs), `image_hash` (cache keys) and `json`
  (the text members of a reply).

`text` and `utf16` hold what these share: trimming, numerals and wide characters.

`app/` performs what `src/` decides: it starts processes, keeps the process-wide state and makes
the network calls.
