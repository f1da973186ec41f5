# cndev

The server of a small blogging site: authors sign in with a code sent by SMS, write
posts, have them reviewed by a moderation service and publish them as static pages.

`src/` is the library, verified with Verus. It holds the rules of the site:

- `post`, `user`: what each change does to a stored post or user, and when it is refused;
- `nick`: how a requested nick is normalized;
- `sms`, `auth`: codes, the keys they are kept under, tokens and the admission of requests;
- `shencha`: the moderation verdict and the chunks in which a text is reviewed;
- `user_controller`, `post_controller`, `tenant_controller`: the request handlers as
  state machines, from state and event to next state and action;
- `site`, `text`, `datetime`, `ip`, `reply`: paths of the published pages, text
  helpers, times, addresses and answers.

`app/` runs the server: HTTP, the database, Redis, the SMS and moderation services, the
files of the published pages. It performs the actions that the library's machines ask
for and hands back what happened.
