# lsforms

Libre Static Forms: a small server that receives the POST requests of forms
on static websites, checks them against a per-host description of the form
(`hosts.json`), optionally verifies an ALTCHA captcha, and mails the form
data to the form's owner.

## Layout

- `src/` is the library, written in Verus. Its functions carry contracts
  that Verus proves, except the few marked `#[verifier::external_body]`:
  these make the calls into outside crates (and std), and their contracts
  are trusted, as their doc comments say:
  - `text`: strings over `Seq<char>` models (first line, replacement,
    decimal parsing, byte truncation).
  - `webmodels`: client-facing models, the HTML escaping of user text, and
    the checks of a star post.
  - `strmap`: the string-keyed map used for hosts and submitted values.
  - `errors`: error kinds, codes, severities, what is printed and answered.
  - `config`: the configuration, the hosts, the mail templates, the email
    regex, and the once-set globals.
  - `json`: a JSON value model, for payment notifications.
  - `handlers`: what a form submission and a captcha request decide;
    `handlers::callbacks` reads payment notifications and
    `handlers::transactions` plans the mails sent to donors.
  - `emails`: the form data, subject and body of the mail.
  - `templates`: the data of a host's HTML form page.
  - `db`: event types, gem computation, and transactions read from payment
    notifications.
- `tests/` runs the library on concrete values, with the outside crates
  linked.
- `app/` is the HTTP server around the library: configuration files,
  actix-web routes, JSON answers, and sending the mail over SMTP.
